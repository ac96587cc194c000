use vstd::prelude::*;
use crate::module::block::{indentation, lines_code, Block, BlockView, Statement, StatementView};
use crate::module::{imports_code, DependencyView, Module, ModuleView};

verus! {

/// Generating the code of a statement twice gives the same text both times.
pub proof fn lemma_statement_generate_deterministic(
    statement: Statement,
    first: String,
    second: String,
)
    requires
        call_ensures(Statement::generate, (&statement,), first),
        call_ensures(Statement::generate, (&statement,), second),
    ensures
        first@ == second@,
{
}

/// Two statements with the same model have the same code: a clone renders as
/// the original does.
pub proof fn lemma_equal_statements_generate_equal(
    one: Statement,
    other: Statement,
    first: String,
    second: String,
)
    requires
        one@ == other@,
        call_ensures(Statement::generate, (&one,), first),
        call_ensures(Statement::generate, (&other,), second),
    ensures
        first@ == second@,
{
}

/// Generating the code of a block twice gives the same text both times.
pub proof fn lemma_block_generate_deterministic(block: Block, first: String, second: String)
    requires
        call_ensures(Block::generate, (&block,), first),
        call_ensures(Block::generate, (&block,), second),
    ensures
        first@ == second@,
{
}

/// Generating the code of a module twice, without a change in between, gives
/// the same text both times.
pub proof fn lemma_module_generate_deterministic(module: Module, first: String, second: String)
    requires
        call_ensures(Module::generate_code_string, (&module,), first),
        call_ensures(Module::generate_code_string, (&module,), second),
    ensures
        first@ == second@,
{
}

/// The number of characters of the lines of `statements` at nesting depth `indent`.
pub open spec fn lines_len(indent: nat, statements: Seq<StatementView>) -> nat
    decreases statements,
{
    if statements.len() == 0 {
        0
    } else {
        lines_len(indent, statements.drop_last()) + 4 * indent + statements.last().code_len() + 1
    }
}

impl StatementView {
    /// The number of characters of a statement's code, computed from the tree alone.
    pub open spec fn code_len(self) -> nat
        decreases self,
    {
        match self {
            StatementView::Raw(text) => text.len(),
            StatementView::Literal { value } => value.len(),
            StatementView::VarDecl { var_type, name, initializer } => {
                var_type.keyword().len() + 1 + name.len() + match initializer {
                    Some(init) => 3 + init.code_len(),
                    None => 0,
                }
            },
            StatementView::Binary { left, operator, right } => {
                left.code_len() + operator.len() + right.code_len() + 4
            },
            StatementView::Block(block) => block.code_len(),
        }
    }
}

impl BlockView {
    /// The number of characters of a block's code, computed from the tree alone.
    pub open spec fn code_len(self) -> nat
        decreases self,
    {
        lines_len(self.indent, self.statements)
    }
}

/// The indentation for depth `level` is `4 * level` characters long.
pub proof fn lemma_indentation_len(level: nat)
    ensures
        indentation(level).len() == 4 * level,
    decreases level,
{
    reveal_strlit("    ");
    if level > 0 {
        lemma_indentation_len((level - 1) as nat);
    }
}

/// The length of a statement's code is a function of the tree: it is `code_len`.
pub proof fn lemma_statement_code_len(statement: StatementView)
    ensures
        statement.code().len() == statement.code_len(),
    decreases statement,
{
    reveal_strlit(" ");
    reveal_strlit(" = ");
    reveal_strlit("(");
    reveal_strlit(")");
    match statement {
        StatementView::Raw(_) => {},
        StatementView::Literal { .. } => {},
        StatementView::VarDecl { initializer, .. } => {
            match initializer {
                Some(init) => lemma_statement_code_len(*init),
                None => {},
            }
        },
        StatementView::Binary { left, right, .. } => {
            lemma_statement_code_len(*left);
            lemma_statement_code_len(*right);
        },
        StatementView::Block(block) => {
            lemma_lines_code_len(block.indent, block.statements);
            assert(block.code() == lines_code(block.indent, block.statements));
            assert(block.code_len() == lines_len(block.indent, block.statements));
        },
    }
}

/// The length of the lines of `statements` is `lines_len`.
pub proof fn lemma_lines_code_len(indent: nat, statements: Seq<StatementView>)
    ensures
        lines_code(indent, statements).len() == lines_len(indent, statements),
    decreases statements,
{
    reveal_strlit("\n");
    if statements.len() > 0 {
        lemma_lines_code_len(indent, statements.drop_last());
        lemma_statement_code_len(statements.last());
        lemma_indentation_len(indent);
    }
}

/// The text that `generate` returns for a statement has `code_len` characters.
pub proof fn lemma_generated_statement_len(statement: Statement, code: String)
    requires
        call_ensures(Statement::generate, (&statement,), code),
    ensures
        code@.len() == statement@.code_len(),
{
    lemma_statement_code_len(statement@);
}

/// The length of a block's code is a function of the tree: it is `code_len`.
pub proof fn lemma_block_code_len(block: BlockView)
    ensures
        block.code().len() == block.code_len(),
{
    lemma_lines_code_len(block.indent, block.statements);
}

/// A binary expression is its two operands around the operator, a space on
/// each side of it, in one pair of parentheses, whatever the operands are.
pub proof fn lemma_binary_parenthesized(
    left: StatementView,
    operator: Seq<char>,
    right: StatementView,
)
    ensures
        StatementView::binary(left, operator, right).code() == "("@ + left.code() + " "@ + operator
            + " "@ + right.code() + ")"@,
        StatementView::binary(left, operator, right).code().first() == '(',
        StatementView::binary(left, operator, right).code().last() == ')',
{
    reveal_strlit("(");
    reveal_strlit(")");
}

/// A block without statements has no code.
pub proof fn lemma_empty_block_code(indent: nat)
    ensures
        BlockView::empty(indent).code() == Seq::<char>::empty(),
{
}

/// Appending a statement to a block appends one line to its code: the
/// indentation, the statement's code and a line feed. The earlier lines stay.
pub proof fn lemma_push_appends_line(block: BlockView, statement: StatementView)
    ensures
        block.push(statement).code() == block.code() + indentation(block.indent)
            + statement.code() + "\n"@,
{
    assert(block.statements.push(statement).drop_last() == block.statements);
}

/// At nesting depth 0 a line is the statement's code and a line feed, with
/// nothing in front of it.
pub proof fn lemma_top_level_line(statement: StatementView)
    ensures
        BlockView::empty(0).push(statement).code() == statement.code() + "\n"@,
{
    lemma_push_appends_line(BlockView::empty(0), statement);
}

/// A module without dependencies and statements has no code.
pub proof fn lemma_empty_module_code(name: Seq<char>)
    ensures
        ModuleView::empty(name).code() == Seq::<char>::empty(),
{
}

/// Adding a dependency puts its import line after the import lines that are
/// there and before the body, and changes neither.
pub proof fn lemma_dependency_appends_import(module: ModuleView, dependency: DependencyView)
    ensures
        module.with_dependencies(seq![dependency]).code() == imports_code(module.dependencies)
            + dependency.code() + module.main_block.code(),
{
    let added = module.dependencies + seq![dependency];
    assert(added.drop_last() == module.dependencies);
}

/// The code of a module does not depend on its name.
pub proof fn lemma_code_ignores_name(module: ModuleView, name: Seq<char>)
    ensures
        (ModuleView { name, ..module }).code() == module.code(),
{
}

} // verus!
