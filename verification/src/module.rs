use vstd::prelude::*;
use vstd::utf8::encode_utf8;
use crate::module::block::{Block, BlockView};

pub mod block;
pub mod literal;

verus! {

/// Struct that represents a js module (file).
pub struct Module {
    /// The name of the module (file without extension).
    pub name: String,
    /// The dependencies of the module.
    pub dependencies: Vec<Dependency>,
    /// Main block of the module.
    pub main_block: Block,
}

/// Module dependency.
#[derive(Debug, PartialEq)]
pub struct Dependency {
    /// List of imported things (eg. `import { foo, bar } from 'baz'` would be `["foo", "bar"]`).
    pub imports: Vec<String>,
    /// Path of the dependency (eg. `import { foo, bar } from 'baz'` would be `"baz"`).
    pub path: String,
}

/// Mathematical model of a [`Dependency`]: the imported names and the path, as text.
#[verifier::ext_equal]
pub struct DependencyView {
    pub imports: Seq<Seq<char>>,
    pub path: Seq<char>,
}

/// Mathematical model of a [`Module`].
#[verifier::ext_equal]
pub struct ModuleView {
    pub name: Seq<char>,
    pub dependencies: Seq<DependencyView>,
    pub main_block: BlockView,
}

impl View for Dependency {
    type V = DependencyView;

    open spec fn view(&self) -> DependencyView {
        DependencyView {
            imports: texts(self.imports@),
            path: self.path@,
        }
    }
}

impl View for Module {
    type V = ModuleView;

    open spec fn view(&self) -> ModuleView {
        ModuleView {
            name: self.name@,
            dependencies: dependency_views(self.dependencies@),
            main_block: self.main_block@,
        }
    }
}

/// The texts of a list of strings, in order.
pub open spec fn texts(strings: Seq<String>) -> Seq<Seq<char>> {
    Seq::new(strings.len(), |i: int| strings[i]@)
}

/// The models of a list of dependencies, in order.
pub open spec fn dependency_views(dependencies: Seq<Dependency>) -> Seq<DependencyView> {
    Seq::new(dependencies.len(), |i: int| dependencies[i]@)
}

/// `parts` in order, with `separator` between each two neighbours.
pub open spec fn joined(parts: Seq<Seq<char>>, separator: Seq<char>) -> Seq<char>
    decreases parts.len(),
{
    if parts.len() == 0 {
        Seq::empty()
    } else if parts.len() == 1 {
        parts[0]
    } else {
        joined(parts.drop_last(), separator) + separator + parts.last()
    }
}

/// The import lines of `dependencies`, in order.
pub open spec fn imports_code(dependencies: Seq<DependencyView>) -> Seq<char>
    decreases dependencies.len(),
{
    if dependencies.len() == 0 {
        Seq::empty()
    } else {
        imports_code(dependencies.drop_last()) + dependencies.last().code()
    }
}

impl DependencyView {
    /// The import line of a dependency, line feed included: the names, joined by
    /// a comma and a space, between braces, and the path between single quotes.
    pub open spec fn code(self) -> Seq<char> {
        "import { "@ + joined(self.imports, ", "@) + " } from '"@ + self.path + "';\n"@
    }
}

impl ModuleView {
    /// The module that `create` makes: no dependency, and an empty main block
    /// at nesting depth 0.
    pub open spec fn empty(name: Seq<char>) -> ModuleView {
        ModuleView { name, dependencies: Seq::empty(), main_block: BlockView::empty(0) }
    }

    /// The module with `dependencies` added after those it has.
    pub open spec fn with_dependencies(self, dependencies: Seq<DependencyView>) -> ModuleView {
        ModuleView {
            name: self.name,
            dependencies: self.dependencies + dependencies,
            main_block: self.main_block,
        }
    }

    /// The source text of a module: its import lines, directly followed by the
    /// code of its main block.
    pub open spec fn code(self) -> Seq<char> {
        imports_code(self.dependencies) + self.main_block.code()
    }

    /// The name of the file that holds the module: its name and the extension `.js`.
    pub open spec fn file_name(self) -> Seq<char> {
        self.name + ".js"@
    }
}

/// UTF-8 encoding goes through concatenation.
pub proof fn lemma_encode_utf8_concat(a: Seq<char>, b: Seq<char>)
    ensures
        encode_utf8(a + b) == encode_utf8(a) + encode_utf8(b),
    decreases a.len(),
{
    if a.len() == 0 {
        assert(a + b =~= b);
    } else {
        lemma_encode_utf8_concat(a.drop_first(), b);
        assert((a + b).drop_first() =~= a.drop_first() + b);
    }
}

/// Appends the UTF-8 bytes of `text` to `output`.
fn write_str(output: &mut Vec<u8>, text: &str)
    ensures
        final(output)@ == old(output)@ + encode_utf8(text@),
{
    output.extend_from_slice(text.as_bytes());
    assert(output@ =~= old(output)@ + encode_utf8(text@));
}

impl Dependency {
    /// Create a new dependency.
    pub fn new(imports: Vec<String>, path: &str) -> (dependency: Self)
        ensures
            dependency@ == (DependencyView { imports: texts(imports@), path: path@ }),
            dependency.imports == imports,
    {
        Self { imports, path: path.to_string() }
    }

    /// The import line of the dependency.
    fn import_line(&self) -> (code: String)
        ensures
            code@ == self@.code(),
    {
        let mut names = String::new();
        let mut i: usize = 0;
        while i < self.imports.len()
            invariant
                i <= self.imports.len(),
                names@ == joined(self@.imports.take(i as int), ", "@),
            decreases self.imports.len() - i,
        {
            if i > 0 {
                names.append(", ");
            }
            names.append(self.imports[i].as_str());
            proof {
                let done = self@.imports.take(i + 1);
                assert(done.drop_last() == self@.imports.take(i as int));
                assert(done.last() == self.imports[i as int]@);
            }
            i += 1;
        }
        proof {
            assert(self@.imports.take(i as int) == self@.imports);
        }
        let mut code = "import { ".to_owned();
        code.append(names.as_str());
        code.append(" } from '");
        code.append(self.path.as_str());
        code.append("';\n");
        code
    }
}

impl Module {
    /// Create a new module.
    pub fn create(name: &str) -> (module: Self)
        ensures
            module@ == ModuleView::empty(name@),
    {
        let module = Self {
            name: name.to_string(),
            dependencies: Vec::new(),
            main_block: Block::new(0),
        };
        assert(module@.dependencies =~= Seq::empty());
        module
    }

    /// Add a dependency to the module.
    pub fn dep(&mut self, dependency: Dependency)
        ensures
            final(self)@ == old(self)@.with_dependencies(seq![dependency@]),
    {
        self.dependencies.push(dependency);
        assert(self@.dependencies =~= old(self)@.dependencies + seq![dependency@]);
    }

    /// Add multiple dependencies to the module.
    pub fn deps(&mut self, dependencies: Vec<Dependency>)
        ensures
            final(self)@ == old(self)@.with_dependencies(dependency_views(dependencies@)),
    {
        let mut dependencies = dependencies;
        let ghost added = dependency_views(dependencies@);
        self.dependencies.append(&mut dependencies);
        assert(self@.dependencies =~= old(self)@.dependencies + added);
    }

    /// The name of the file that the module is written to inside a directory.
    pub fn file_name(&self) -> (file_name: String)
        ensures
            file_name@ == self@.file_name(),
    {
        let mut file_name = self.name.clone();
        file_name.append(".js");
        file_name
    }

    /// Generate the module's code and write it to any output.
    pub fn generate_to(&self, output: &mut Vec<u8>)
        ensures
            final(output)@ == old(output)@ + encode_utf8(self@.code()),
    {
        let mut i: usize = 0;
        while i < self.dependencies.len()
            invariant
                i <= self.dependencies.len(),
                output@ == old(output)@ + encode_utf8(
                    imports_code(self@.dependencies.take(i as int)),
                ),
            decreases self.dependencies.len() - i,
        {
            let line = self.dependencies[i].import_line();
            proof {
                let done = self@.dependencies.take(i + 1);
                assert(done.drop_last() == self@.dependencies.take(i as int));
                assert(done.last() == self.dependencies[i as int]@);
                lemma_encode_utf8_concat(imports_code(done.drop_last()), line@);
            }
            write_str(output, line.as_str());
            i += 1;
        }
        let body = self.main_block.generate();
        proof {
            assert(self@.dependencies.take(i as int) == self@.dependencies);
            lemma_encode_utf8_concat(imports_code(self@.dependencies), body@);
        }
        write_str(output, body.as_str());
    }

    /// Generate the module's code.
    pub fn generate_code_string(&self) -> (code: String)
        ensures
            code@ == self@.code(),
    {
        let mut code = String::new();
        let mut i: usize = 0;
        while i < self.dependencies.len()
            invariant
                i <= self.dependencies.len(),
                code@ == imports_code(self@.dependencies.take(i as int)),
            decreases self.dependencies.len() - i,
        {
            let line = self.dependencies[i].import_line();
            code.append(line.as_str());
            proof {
                let done = self@.dependencies.take(i + 1);
                assert(done.drop_last() == self@.dependencies.take(i as int));
                assert(done.last() == self.dependencies[i as int]@);
            }
            i += 1;
        }
        proof {
            assert(self@.dependencies.take(i as int) == self@.dependencies);
        }
        let body = self.main_block.generate();
        code.append(body.as_str());
        code
    }
}

impl Clone for Dependency {
    /// The clone imports the same names from the same path.
    fn clone(&self) -> (copy: Self)
        ensures
            copy@ == self@,
    {
        let copy = Self { imports: self.imports.clone(), path: self.path.clone() };
        assert(copy@.imports =~= self@.imports);
        copy
    }
}

impl core::ops::Deref for Module {
    type Target = Block;

    /// A module reads as its main block.
    fn deref(&self) -> (block: &Block)
        ensures
            *block == self.main_block,
    {
        &self.main_block
    }
}

impl core::ops::DerefMut for Module {
    /// A module is filled through its main block; its name and dependencies stay.
    fn deref_mut(&mut self) -> (block: &mut Block)
        ensures
            *block == old(self).main_block,
            final(self).main_block == *final(block),
            final(self).name == old(self).name,
            final(self).dependencies == old(self).dependencies,
    {
        &mut self.main_block
    }
}

} // verus!
