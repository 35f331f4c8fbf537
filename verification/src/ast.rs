//! The syntax tree that the transform reads and rebuilds, and its
//! mathematical counterpart.

use vstd::prelude::*;

verus! {

/// A node of a parsed program unit.
///
/// Only the constructs that the transform inspects or builds have a variant
/// of their own; every other construct is an [`Node::Other`] holding its
/// children in source order.
#[derive(Debug, PartialEq, Eq)]
pub enum Node {
    /// A reference to a binding by name.
    Ident(String),
    /// A string literal, by its value.
    Str(String),
    /// `yield arg` or, with `delegate` set, `yield* arg`.
    Yield { delegate: bool, arg: Option<Box<Node>> },
    /// A parenthesised expression.
    Paren(Box<Node>),
    /// A call with positional arguments.
    Call { callee: Box<Node>, args: Vec<Node> },
    /// A function: where it starts in the source, whether it is a generator,
    /// and everything it contains (parameters and body statements).
    Function { pos: u32, is_generator: bool, body: Vec<Node> },
    /// A statement made of one expression.
    ExprStmt(Box<Node>),
    /// `import { imported as local } from "source"`.
    Import { local: String, imported: String, source: String },
    /// Any other construct, with its children in source order.
    Other(Vec<Node>),
}

/// The mathematical value of a [`Node`].
pub enum Tree {
    Ident(Seq<char>),
    Str(Seq<char>),
    Yield { delegate: bool, arg: Option<Box<Tree>> },
    Paren(Box<Tree>),
    Call { callee: Box<Tree>, args: Seq<Tree> },
    Function { pos: u32, is_generator: bool, body: Seq<Tree> },
    ExprStmt(Box<Tree>),
    Import { local: Seq<char>, imported: Seq<char>, source: Seq<char> },
    Other(Seq<Tree>),
}

/// The tree that a node stands for.
pub open spec fn tree_of(n: Node) -> Tree
    decreases n,
{
    match n {
        Node::Ident(s) => Tree::Ident(s@),
        Node::Str(s) => Tree::Str(s@),
        Node::Yield { delegate, arg } => Tree::Yield {
            delegate,
            arg: match arg {
                Some(a) => Some(Box::new(tree_of(*a))),
                None => None,
            },
        },
        Node::Paren(e) => Tree::Paren(Box::new(tree_of(*e))),
        Node::Call { callee, args } => Tree::Call {
            callee: Box::new(tree_of(*callee)),
            args: trees_of(args@),
        },
        Node::Function { pos, is_generator, body } => Tree::Function {
            pos,
            is_generator,
            body: trees_of(body@),
        },
        Node::ExprStmt(e) => Tree::ExprStmt(Box::new(tree_of(*e))),
        Node::Import { local, imported, source } => Tree::Import {
            local: local@,
            imported: imported@,
            source: source@,
        },
        Node::Other(children) => Tree::Other(trees_of(children@)),
    }
}

/// The trees that a sequence of nodes stands for, in the same order.
pub open spec fn trees_of(ns: Seq<Node>) -> Seq<Tree>
    decreases ns,
{
    Seq::new(ns.len(), |i: int| if 0 <= i < ns.len() { tree_of(ns[i]) } else { arbitrary() })
}

impl View for Node {
    type V = Tree;

    open spec fn view(&self) -> Tree {
        tree_of(*self)
    }
}

} // verus!

verus! {

/// A unit in module form: its top-level items in source order.
#[derive(Debug, PartialEq, Eq)]
pub struct Module {
    pub body: Vec<Node>,
}

/// A unit in script form: its top-level statements in source order.
#[derive(Debug, PartialEq, Eq)]
pub struct Script {
    pub body: Vec<Node>,
}

/// One parsed program unit, in either form.
#[derive(Debug, PartialEq, Eq)]
pub enum Program {
    Module(Module),
    Script(Script),
}

impl Program {
    /// The top-level items of the unit, whatever its form.
    pub open spec fn items(self) -> Seq<Tree> {
        match self {
            Program::Module(m) => trees_of(m.body@),
            Program::Script(s) => trees_of(s.body@),
        }
    }

    /// Whether the unit is in module form.
    pub open spec fn is_module(self) -> bool {
        self is Module
    }
}

} // verus!
