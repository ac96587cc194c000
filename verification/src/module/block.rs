use vstd::prelude::*;

verus! {

/// The keyword that introduces a variable declaration.
#[derive(Debug, Clone, Copy, PartialEq)]
pub enum VarType {
    Let,
    Const,
    Var,
}

/// Block of code in a module / function.
#[derive(Debug, PartialEq)]
pub struct Block {
    /// Indentation level of the block.
    pub indent: usize,
    /// The statements in the block, in the order in which they are emitted.
    pub statements: Vec<Statement>,
}

/// Statement for a block.
#[derive(Debug, PartialEq)]
pub enum Statement {
    /// Raw line of code.
    Raw(String),
    /// Literal value, already formatted.
    Literal {
        /// The value of the literal.
        value: String,
    },
    /// Variable declaration.
    VarDecl {
        /// The type of the variable.
        var_type: VarType,
        /// The name of the variable.
        name: String,
        /// Initializer expression.
        initializer: Option<Box<Statement>>,
    },
    /// Binary expression.
    Binary {
        /// The left side of the expression.
        left: Box<Statement>,
        /// The operator of the expression.
        operator: String,
        /// The right side of the expression.
        right: Box<Statement>,
    },
    /// Block of code.
    Block(Box<Block>),
}

/// Mathematical model of a [`Block`]: its indentation level and the models of its statements.
#[verifier::ext_equal]
pub struct BlockView {
    pub indent: nat,
    pub statements: Seq<StatementView>,
}

/// Mathematical model of a [`Statement`]: the same tree, with every string
/// replaced by its sequence of characters.
#[verifier::ext_equal]
pub enum StatementView {
    Raw(Seq<char>),
    Literal { value: Seq<char> },
    VarDecl { var_type: VarType, name: Seq<char>, initializer: Option<Box<StatementView>> },
    Binary { left: Box<StatementView>, operator: Seq<char>, right: Box<StatementView> },
    Block(Box<BlockView>),
}

impl Statement {
    /// The model of a statement, by recursion over the tree.
    pub open spec fn model(self) -> StatementView
        decreases self,
    {
        match self {
            Statement::Raw(code) => StatementView::Raw(code@),
            Statement::Literal { value } => StatementView::Literal { value: value@ },
            Statement::VarDecl { var_type, name, initializer } => StatementView::VarDecl {
                var_type,
                name: name@,
                initializer: match initializer {
                    Some(init) => Some(Box::new(init.model())),
                    None => None,
                },
            },
            Statement::Binary { left, operator, right } => StatementView::Binary {
                left: Box::new(left.model()),
                operator: operator@,
                right: Box::new(right.model()),
            },
            Statement::Block(block) => StatementView::Block(Box::new(block.model())),
        }
    }
}

impl Block {
    /// The model of a block: the models of its statements, in order.
    pub open spec fn model(self) -> BlockView
        decreases self,
    {
        BlockView {
            indent: self.indent as nat,
            statements: Seq::new(
                self.statements@.len(),
                |i: int|
                    if 0 <= i < self.statements@.len() {
                        self.statements@[i].model()
                    } else {
                        arbitrary()
                    },
            ),
        }
    }
}

impl View for Statement {
    type V = StatementView;

    open spec fn view(&self) -> StatementView {
        self.model()
    }
}

impl View for Block {
    type V = BlockView;

    open spec fn view(&self) -> BlockView {
        self.model()
    }
}

impl VarType {
    /// The keyword that a declaration of this kind starts with.
    pub open spec fn keyword(self) -> Seq<char> {
        match self {
            VarType::Let => "let"@,
            VarType::Const => "const"@,
            VarType::Var => "var"@,
        }
    }
}

/// The text that precedes every line of a block at nesting depth `level`:
/// four spaces per level.
pub open spec fn indentation(level: nat) -> Seq<char>
    decreases level,
{
    if level == 0 {
        Seq::empty()
    } else {
        indentation((level - 1) as nat) + "    "@
    }
}

/// The lines of `statements`, in order: each is the indentation for `indent`,
/// the statement's code and a line feed.
pub open spec fn lines_code(indent: nat, statements: Seq<StatementView>) -> Seq<char>
    decreases statements,
{
    if statements.len() == 0 {
        Seq::empty()
    } else {
        lines_code(indent, statements.drop_last()) + indentation(indent)
            + statements.last().code() + "\n"@
    }
}

impl StatementView {
    /// The source text of a statement.
    ///
    /// Raw code and literals stand for themselves. A declaration is its keyword,
    /// a space and the name, followed by ` = ` and the initializer where there is
    /// one. A binary expression is always wrapped in parentheses, so that operator
    /// precedence never matters. A nested block is the text of that block.
    pub open spec fn code(self) -> Seq<char>
        decreases self,
    {
        match self {
            StatementView::Raw(text) => text,
            StatementView::Literal { value } => value,
            StatementView::VarDecl { var_type, name, initializer } => {
                var_type.keyword() + " "@ + name + match initializer {
                    Some(init) => " = "@ + init.code(),
                    None => Seq::empty(),
                }
            },
            StatementView::Binary { left, operator, right } => {
                "("@ + left.code() + " "@ + operator + " "@ + right.code() + ")"@
            },
            StatementView::Block(block) => block.code(),
        }
    }

    /// A declaration of `name`, with or without an initializer.
    pub open spec fn var_decl(
        var_type: VarType,
        name: Seq<char>,
        initializer: Option<StatementView>,
    ) -> StatementView {
        StatementView::VarDecl {
            var_type,
            name,
            initializer: match initializer {
                Some(init) => Some(Box::new(init)),
                None => None,
            },
        }
    }

    /// The binary expression `left operator right`.
    pub open spec fn binary(
        left: StatementView,
        operator: Seq<char>,
        right: StatementView,
    ) -> StatementView {
        StatementView::Binary { left: Box::new(left), operator, right: Box::new(right) }
    }
}

impl BlockView {
    /// The block without statements at nesting depth `indent`.
    pub open spec fn empty(indent: nat) -> BlockView {
        BlockView { indent, statements: Seq::empty() }
    }

    /// The block with `statement` appended.
    pub open spec fn push(self, statement: StatementView) -> BlockView {
        BlockView { indent: self.indent, statements: self.statements.push(statement) }
    }

    /// The source text of a block: one line per statement, in order.
    ///
    /// The indentation is that of the block's own `indent`; it is not derived from
    /// how deeply the block is nested.
    pub open spec fn code(self) -> Seq<char>
        decreases self,
    {
        lines_code(self.indent, self.statements)
    }
}

/// Builds the indentation for nesting depth `level`.
fn indent_string(level: usize) -> (pad: String)
    ensures
        pad@ == indentation(level as nat),
{
    let mut pad = String::new();
    let mut i: usize = 0;
    while i < level
        invariant
            i <= level,
            pad@ == indentation(i as nat),
        decreases level - i,
    {
        pad.append("    ");
        i += 1;
    }
    pad
}

impl Statement {
    /// Create js code for the statement.
    pub fn generate(&self) -> (code: String)
        ensures
            code@ == self@.code(),
        decreases self,
    {
        match self {
            Statement::Raw(code) => code.clone(),
            Statement::Literal { value } => value.clone(),
            Statement::VarDecl { var_type, name, initializer } => {
                let keyword = match var_type {
                    VarType::Let => "let",
                    VarType::Const => "const",
                    VarType::Var => "var",
                };
                let mut code = keyword.to_owned();
                code.append(" ");
                code.append(name.as_str());
                match initializer {
                    Some(initializer) => {
                        let value = initializer.generate();
                        code.append(" = ");
                        code.append(value.as_str());
                    },
                    None => {},
                }
                code
            },
            Statement::Binary { left, operator, right } => {
                let lhs = left.generate();
                let rhs = right.generate();
                let mut code = "(".to_owned();
                code.append(lhs.as_str());
                code.append(" ");
                code.append(operator.as_str());
                code.append(" ");
                code.append(rhs.as_str());
                code.append(")");
                code
            },
            Statement::Block(block) => block.generate(),
        }
    }

    /// Moves the statement to the heap.
    pub fn boxed(self) -> (boxed: Box<Self>)
        ensures
            *boxed == self,
    {
        Box::new(self)
    }

    /// A deep copy of the statement.
    fn duplicate(&self) -> (copy: Self)
        ensures
            copy@ == self@,
        decreases self,
    {
        match self {
            Statement::Raw(code) => Statement::Raw(code.clone()),
            Statement::Literal { value } => Statement::Literal { value: value.clone() },
            Statement::VarDecl { var_type, name, initializer } => Statement::VarDecl {
                var_type: *var_type,
                name: name.clone(),
                initializer: match initializer {
                    Some(initializer) => Some(Box::new(initializer.duplicate())),
                    None => None,
                },
            },
            Statement::Binary { left, operator, right } => Statement::Binary {
                left: Box::new(left.duplicate()),
                operator: operator.clone(),
                right: Box::new(right.duplicate()),
            },
            Statement::Block(block) => Statement::Block(Box::new(block.duplicate())),
        }
    }
}

impl Block {
    /// Create a new block.
    pub fn new(indent: usize) -> (block: Self)
        ensures
            block@ == BlockView::empty(indent as nat),
    {
        let block = Self { indent, statements: Vec::new() };
        assert(block@.statements =~= Seq::empty());
        block
    }

    /// Add a statement to the block.
    pub fn stmt(&mut self, statement: Statement) -> (block: &mut Self)
        ensures
            block@ == old(self)@.push(statement@),
            *final(self) == *final(block),
    {
        self.statements.push(statement);
        assert(self@.statements =~= old(self)@.statements.push(statement@));
        self
    }

    /// Add raw code to the block.
    pub fn raw(&mut self, code: &str) -> (block: &mut Self)
        ensures
            block@ == old(self)@.push(StatementView::Raw(code@)),
            *final(self) == *final(block),
    {
        self.stmt(Statement::Raw(code.to_string()))
    }

    /// Add a variable declaration to the block.
    pub fn var_decl(&mut self, var_type: VarType, name: &str, initializer: Option<Statement>) -> (block:
        &mut Self)
        ensures
            block@ == old(self)@.push(
                StatementView::var_decl(
                    var_type,
                    name@,
                    match initializer {
                        Some(init) => Some(init@),
                        None => None,
                    },
                ),
            ),
            *final(self) == *final(block),
    {
        self.stmt(
            Statement::VarDecl {
                var_type,
                name: name.to_string(),
                initializer: match initializer {
                    Some(initializer) => Some(Box::new(initializer)),
                    None => None,
                },
            },
        )
    }

    /// Add a literal to the block.
    ///
    /// The value must convert into a [`Statement::Literal`]; anything else is a
    /// mistake of the caller, which the precondition rules out.
    pub fn literal(&mut self, value: impl Into<Statement>) -> (block: &mut Self)
        requires
            forall|statement: Statement|
                call_ensures(Into::into, (value,), statement) ==> statement is Literal,
        ensures
            exists|statement: Statement|
                call_ensures(Into::into, (value,), statement) && statement is Literal && block@
                    == old(self)@.push(statement@),
            *final(self) == *final(block),
    {
        let value = value.into();
        match value {
            Statement::Literal { value } => self.stmt(Statement::Literal { value }),
            _ => vstd::pervasive::unreached(),
        }
    }

    /// Add a binary expression to the block.
    pub fn binary(
        &mut self,
        left: impl Into<Statement>,
        operator: &str,
        right: impl Into<Statement>,
    ) -> (block: &mut Self)
        ensures
            exists|lhs: Statement, rhs: Statement|
                call_ensures(Into::into, (left,), lhs) && call_ensures(Into::into, (right,), rhs)
                    && block@ == old(self)@.push(StatementView::binary(lhs@, operator@, rhs@)),
            *final(self) == *final(block),
    {
        let lhs: Statement = left.into();
        let rhs: Statement = right.into();
        let ghost expression = StatementView::binary(lhs@, operator@, rhs@);
        let block = self.stmt(
            Statement::Binary {
                left: Box::new(lhs),
                operator: operator.to_string(),
                right: Box::new(rhs),
            },
        );
        assert(call_ensures(Into::into, (left,), lhs) && call_ensures(Into::into, (right,), rhs)
            && block@ == old(self)@.push(expression));
        block
    }

    /// Generate the block's code.
    pub fn generate(&self) -> (code: String)
        ensures
            code@ == self@.code(),
        decreases self,
    {
        let pad = indent_string(self.indent);
        let mut code = String::new();
        let mut i: usize = 0;
        while i < self.statements.len()
            invariant
                i <= self.statements.len(),
                pad@ == indentation(self.indent as nat),
                code@ == lines_code(self.indent as nat, self@.statements.take(i as int)),
            decreases self.statements.len() - i,
        {
            let line = self.statements[i].generate();
            code.append(pad.as_str());
            code.append(line.as_str());
            code.append("\n");
            proof {
                let done = self@.statements.take(i + 1);
                assert(done.drop_last() == self@.statements.take(i as int));
                assert(done.last() == self.statements[i as int]@);
            }
            i += 1;
        }
        proof {
            assert(self@.statements.take(i as int) == self@.statements);
        }
        code
    }

    /// A deep copy of the block.
    fn duplicate(&self) -> (copy: Self)
        ensures
            copy@ == self@,
        decreases self,
    {
        let mut statements: Vec<Statement> = Vec::new();
        let mut i: usize = 0;
        while i < self.statements.len()
            invariant
                i <= self.statements.len(),
                statements.len() == i,
                forall|j: int| 0 <= j < i ==> statements[j]@ == self.statements[j]@,
            decreases self.statements.len() - i,
        {
            statements.push(self.statements[i].duplicate());
            i += 1;
        }
        let copy = Self { indent: self.indent, statements };
        assert(copy@.statements =~= self@.statements);
        copy
    }
}

impl Clone for Statement {
    /// The clone is the same tree: it has the same model, and so the same code.
    fn clone(&self) -> (copy: Self)
        ensures
            copy@ == self@,
    {
        self.duplicate()
    }
}

impl Clone for Block {
    /// The clone holds the same statements at the same indentation.
    fn clone(&self) -> (copy: Self)
        ensures
            copy@ == self@,
    {
        self.duplicate()
    }
}

} // verus!
