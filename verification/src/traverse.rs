//! The traversal: children first, then the node itself.

use crate::ast::{tree_of, trees_of, Module, Node, Program, Script, Tree};
use crate::comments::{marked_positions, LeadingComments};
use crate::rewrite::{
    helper_import, rewrite, rewrite_all, rewrites_any, rewrites_any_of, transform_unit,
};
use crate::visitor::InlineTransformVisitor;
use vstd::prelude::*;

verus! {

impl InlineTransformVisitor {
    /// Visits one node and returns what stands in its place afterwards.
    ///
    /// The children are visited first, so an operand is already rewritten
    /// when the yield around it is looked at. A delegating yield with an
    /// operand in an active scope is then replaced by the wrapped call, which
    /// takes the operand over; one without an operand is left as it is.
    pub fn visit_mut_expr(&mut self, node: Node) -> (out: Node)
        ensures
            out@ == rewrite(node@, old(self).active(), old(self).marked()),
            final(self).follows(
                old(self),
                rewrites_any(node@, old(self).active(), old(self).marked()),
            ),
        decreases node, 0nat,
    {
        match node {
            Node::Ident(s) => Node::Ident(s),
            Node::Str(s) => Node::Str(s),
            Node::Import { local, imported, source } => Node::Import { local, imported, source },
            Node::Yield { delegate, arg } => match arg {
                Some(a) => {
                    let inner = self.visit_mut_expr(*a);
                    if self.should_rewrite(delegate, true) {
                        self.note_rewrite();
                        self.yield_inline(inner)
                    } else {
                        Node::Yield { delegate, arg: Some(Box::new(inner)) }
                    }
                },
                None => Node::Yield { delegate, arg: None },
            },
            Node::Paren(e) => Node::Paren(Box::new(self.visit_mut_expr(*e))),
            Node::ExprStmt(e) => Node::ExprStmt(Box::new(self.visit_mut_expr(*e))),
            Node::Call { callee, args } => {
                let new_callee = self.visit_mut_expr(*callee);
                let new_args = self.visit_children(args);
                Node::Call { callee: Box::new(new_callee), args: new_args }
            },
            Node::Function { pos, is_generator, body } => self.visit_mut_function(
                pos,
                is_generator,
                body,
            ),
            Node::Other(children) => Node::Other(self.visit_children(children)),
        }
    }

    /// Visits each node of a list in order and returns the list of what
    /// stands in their places.
    pub fn visit_children(&mut self, nodes: Vec<Node>) -> (out: Vec<Node>)
        ensures
            trees_of(out@) == rewrite_all(
                trees_of(nodes@),
                old(self).active(),
                old(self).marked(),
            ),
            final(self).follows(
                old(self),
                rewrites_any_of(trees_of(nodes@), old(self).active(), old(self).marked()),
            ),
        decreases nodes, 0nat,
    {
        let ghost before = *self;
        let ghost active = self.active();
        let ghost marked = self.marked();
        let ghost all = nodes@;
        let mut out: Vec<Node> = Vec::new();
        for n in iter: nodes
            invariant
                all == nodes@,
                iter.seq() == all,
                out@.len() == iter.index(),
                active == before.active(),
                marked == before.marked(),
                forall|j: int|
                    0 <= j < iter.index() ==> tree_of(#[trigger] out@[j]) == rewrite(
                        tree_of(all[j]),
                        active,
                        marked,
                    ),
                self.follows(
                    &before,
                    rewrites_any_of(trees_of(all).take(iter.index() as int), active, marked),
                ),
        {
            let ghost i = iter.index() as int;
            let ghost seen = trees_of(all).take(i);
            let ghost next = trees_of(all).take(i + 1);
            assert(n == nodes@[i]);
            let m = self.visit_mut_expr(n);
            out.push(m);
            proof {
                assert(next[i] == tree_of(all[i]));
                assert(forall|j: int| 0 <= j < i ==> seen[j] == next[j]);
                assert(rewrites_any_of(next, active, marked) == (rewrites_any_of(
                    seen,
                    active,
                    marked,
                ) || rewrites_any(tree_of(all[i]), active, marked)));
            }
        }
        proof {
            assert(trees_of(all).take(all.len() as int) =~= trees_of(all));
            assert(trees_of(out@) =~= rewrite_all(trees_of(all), active, marked));
        }
        out
    }

    /// Visits a function, given by its parts. A generator that its leading
    /// comments do not mark opens an active scope for everything inside it;
    /// a marked generator and an ordinary function leave the scope as it is
    /// around them.
    pub fn visit_mut_function(&mut self, pos: u32, is_generator: bool, body: Vec<Node>) -> (out:
        Node)
        ensures
            out@ == rewrite(
                Tree::Function { pos, is_generator, body: trees_of(body@) },
                old(self).active(),
                old(self).marked(),
            ),
            final(self).follows(
                old(self),
                rewrites_any(
                    Tree::Function { pos, is_generator, body: trees_of(body@) },
                    old(self).active(),
                    old(self).marked(),
                ),
            ),
        decreases body, 1nat,
    {
        let marked = is_generator && self.has_noinline_annotation(pos);
        let counted = self.enter_function(is_generator, marked);
        let new_body = self.visit_children(body);
        self.leave_function(counted);
        Node::Function { pos, is_generator, body: new_body }
    }

    /// Goes through the top-level items of a unit.
    ///
    /// A unit whose first item is the directive loses that item, is marked
    /// as skipped and is not visited at all. In any other unit every item is
    /// visited, and if the visitor has rewritten something by then, the
    /// helper's import becomes the new first item.
    pub fn visit_unit(&mut self, body: &mut Vec<Node>)
        ensures
            final(self).finishes_unit(
                old(self),
                trees_of(old(body)@),
                trees_of(final(body)@),
            ),
    {
        let ghost before = trees_of(body@);
        let first = if body.len() > 0 {
            Some(&body[0])
        } else {
            None
        };
        if self.begin_unit(first) {
            let _ = body.remove(0);
            proof {
                assert(trees_of(body@) =~= before.drop_first());
            }
            return;
        }
        let ghost active = self.active();
        let ghost marked = self.marked();
        let mut items: Vec<Node> = Vec::new();
        core::mem::swap(body, &mut items);
        let visited = self.visit_children(items);
        *body = visited;
        if self.transformed() {
            body.insert(0, self.inline_import());
            proof {
                assert(trees_of(body@) =~= seq![helper_import()] + rewrite_all(
                    before,
                    active,
                    marked,
                ));
            }
        }
    }

    /// Transforms a unit in module form. See [`Self::visit_unit`].
    pub fn visit_mut_module(&mut self, module: &mut Module)
        ensures
            final(self).finishes_unit(
                old(self),
                trees_of(old(module).body@),
                trees_of(final(module).body@),
            ),
    {
        self.visit_unit(&mut module.body);
    }

    /// Transforms a unit in script form. See [`Self::visit_unit`].
    pub fn visit_mut_script(&mut self, script: &mut Script)
        ensures
            final(self).finishes_unit(
                old(self),
                trees_of(old(script).body@),
                trees_of(final(script).body@),
            ),
    {
        self.visit_unit(&mut script.body);
    }
}

/// Transforms one program unit with a fresh visitor and returns it.
///
/// `comments` is the host's comment lookup, if it has one; without it no
/// function counts as marked.
pub fn process_transform(program: Program, comments: Option<LeadingComments>) -> (out: Program)
    ensures
        out.is_module() == program.is_module(),
        out.items() == transform_unit(program.items(), marked_positions(comments)),
{
    let mut visitor = InlineTransformVisitor::new();
    if let Some(table) = comments {
        visitor = visitor.with_comments(table);
    }
    match program {
        Program::Module(mut module) => {
            visitor.visit_mut_module(&mut module);
            Program::Module(module)
        },
        Program::Script(mut script) => {
            visitor.visit_mut_script(&mut script);
            Program::Script(script)
        },
    }
}

} // verus!
