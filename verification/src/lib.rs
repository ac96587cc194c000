//! Builds JavaScript-like source files in memory and renders them to text.
//!
//! A [`module::Module`] holds import lines and a main [`module::block::Block`] of
//! [`module::block::Statement`]s. Every type has a mathematical model (its view), and
//! the text that rendering produces is a spec function of that model, named `code`.

pub mod lemmas;
pub mod module;
