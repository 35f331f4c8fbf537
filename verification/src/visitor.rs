//! The visitor's state, the decisions it takes at each node, and the nodes
//! it builds.

use crate::ast::{tree_of, trees_of, Node, Tree};
use crate::comments::{leading_opts_out, marked_positions, LeadingComments};
use crate::rewrite::{
    helper_call, helper_ident, helper_import, is_directive, rewrites_any_of, scope_inside,
    starts_with_directive, unit_after_visit, wrapped_yield, INLINE_BINDING, INLINE_EXPORT,
    INLINE_MODULE, NO_INLINE_DIRECTIVE,
};
use vstd::prelude::*;
use vstd::string::StringExecFns;

verus! {

/// The state of one traversal.
pub struct InlineTransformVisitor {
    /// How many unmarked generator functions enclose the current node.
    generator_depth: u32,
    /// Whether a delegating yield has been rewritten so far.
    transformed: bool,
    /// Whether the unit opted out by its leading directive.
    skip_file: bool,
    /// The comments leading each source position, if the host supplied them.
    comments: Option<LeadingComments>,
}

/// Whether a statement is the directive that switches the transform off: an
/// expression statement made of the string literal `"no inline"` alone.
pub fn is_no_inline_directive(stmt: &Node) -> (r: bool)
    ensures
        r == is_directive(stmt@),
{
    proof {
        reveal_with_fuel(tree_of, 2);
    }
    match stmt {
        Node::ExprStmt(e) => match &**e {
            Node::Str(s) => {
                let text = String::from_str(NO_INLINE_DIRECTIVE);
                *s == text
            },
            _ => false,
        },
        _ => false,
    }
}

impl InlineTransformVisitor {
    /// The current nesting depth of unmarked generator functions.
    pub closed spec fn depth(&self) -> nat {
        self.generator_depth as nat
    }

    /// Whether the current node stands in an active generator scope.
    pub open spec fn active(&self) -> bool {
        self.depth() > 0
    }

    /// Whether something has been rewritten so far.
    pub closed spec fn has_transformed(&self) -> bool {
        self.transformed
    }

    /// Whether the unit opted out by its directive.
    pub closed spec fn skips_unit(&self) -> bool {
        self.skip_file
    }

    /// The positions of the functions that opted out by a comment.
    pub closed spec fn marked(&self) -> Set<u32> {
        marked_positions(self.comments)
    }

    /// `self` is `before` after a balanced visit: depth, skip flag and
    /// comments are as they were, and the transformed flag has been raised
    /// exactly if it was up already or the visit rewrote something.
    pub open spec fn follows(&self, before: &Self, rewrote: bool) -> bool {
        &&& self.depth() == before.depth()
        &&& self.skips_unit() == before.skips_unit()
        &&& self.marked() == before.marked()
        &&& self.has_transformed() == (before.has_transformed() || rewrote)
    }

    /// `self` is `before` after a visit of a whole unit that held `items`
    /// and now holds `result`: the unit is as [`unit_after_visit`] says, the
    /// skip flag is up if it was or the unit starts with the directive, and
    /// the transformed flag is up if it was or the unit was visited and
    /// something in it was rewritten. Depth and comments are as they were.
    pub open spec fn finishes_unit(
        &self,
        before: &Self,
        items: Seq<Tree>,
        result: Seq<Tree>,
    ) -> bool {
        &&& result == unit_after_visit(
            items,
            before.active(),
            before.has_transformed(),
            before.marked(),
        )
        &&& self.depth() == before.depth()
        &&& self.marked() == before.marked()
        &&& self.skips_unit() == (before.skips_unit() || starts_with_directive(items))
        &&& self.has_transformed() == (before.has_transformed() || (!starts_with_directive(items)
            && rewrites_any_of(items, before.active(), before.marked())))
    }

    /// A visitor at depth zero that has rewritten nothing and has no
    /// comment lookup.
    pub fn new() -> (v: Self)
        ensures
            v.depth() == 0,
            !v.has_transformed(),
            !v.skips_unit(),
            v.marked() == Set::<u32>::empty(),
    {
        InlineTransformVisitor {
            generator_depth: 0,
            transformed: false,
            skip_file: false,
            comments: None,
        }
    }

    /// The same visitor with a comment lookup.
    pub fn with_comments(self, comments: LeadingComments) -> (v: Self)
        ensures
            v.depth() == self.depth(),
            v.has_transformed() == self.has_transformed(),
            v.skips_unit() == self.skips_unit(),
            v.marked() == marked_positions(Some(comments)),
    {
        InlineTransformVisitor {
            generator_depth: self.generator_depth,
            transformed: self.transformed,
            skip_file: self.skip_file,
            comments: Some(comments),
        }
    }

    /// The current nesting depth.
    pub fn generator_depth(&self) -> (d: u32)
        ensures
            d == self.depth(),
    {
        self.generator_depth
    }

    /// Whether something has been rewritten so far.
    pub fn transformed(&self) -> (r: bool)
        ensures
            r == self.has_transformed(),
    {
        self.transformed
    }

    /// Whether the unit opted out by its directive.
    pub fn skip_file(&self) -> (r: bool)
        ensures
            r == self.skips_unit(),
    {
        self.skip_file
    }

    /// Whether the comments leading `pos` carry the opt-out marker.
    pub fn has_noinline_annotation(&self, pos: u32) -> (r: bool)
        ensures
            r == self.marked().contains(pos),
    {
        leading_opts_out(&self.comments, pos)
    }

    /// Steps into a function. Only an unmarked generator is counted; the
    /// result says whether the depth went up, so that the matching
    /// [`Self::leave_function`] takes it down again. A depth that is already
    /// at the counter's limit stays there: the scope is active either way.
    pub fn enter_function(&mut self, is_generator: bool, marked: bool) -> (counted: bool)
        ensures
            counted == (is_generator && !marked && old(self).depth() < u32::MAX),
            final(self).depth() == old(self).depth() + (if counted { 1nat } else { 0nat }),
            final(self).active() == scope_inside(old(self).active(), is_generator, marked),
            final(self).has_transformed() == old(self).has_transformed(),
            final(self).skips_unit() == old(self).skips_unit(),
            final(self).marked() == old(self).marked(),
    {
        if is_generator && !marked && self.generator_depth < u32::MAX {
            self.generator_depth += 1;
            true
        } else {
            false
        }
    }

    /// Steps out of a function that [`Self::enter_function`] stepped into.
    pub fn leave_function(&mut self, counted: bool)
        requires
            counted ==> old(self).depth() > 0,
        ensures
            final(self).depth() == old(self).depth() - (if counted { 1nat } else { 0nat }),
            final(self).has_transformed() == old(self).has_transformed(),
            final(self).skips_unit() == old(self).skips_unit(),
            final(self).marked() == old(self).marked(),
    {
        if counted {
            self.generator_depth -= 1;
        }
    }

    /// Whether a yield with the given flags is to be replaced where the
    /// visitor stands: it delegates, has an operand, and the scope is active.
    pub fn should_rewrite(&self, delegate: bool, has_arg: bool) -> (r: bool)
        ensures
            r == (self.active() && delegate && has_arg),
    {
        self.generator_depth > 0 && delegate && has_arg
    }

    /// Records that a node was replaced.
    pub fn note_rewrite(&mut self)
        ensures
            final(self).follows(old(self), true),
    {
        self.transformed = true;
    }

    /// Looks at the first item of a unit, if it has one, before anything is
    /// visited. The result says whether the unit opts out: its first item is
    /// the directive. The visitor then remembers that; the caller removes the
    /// item and visits nothing.
    pub fn begin_unit(&mut self, first: Option<&Node>) -> (skip: bool)
        ensures
            skip == (match first {
                Some(item) => is_directive(item@),
                None => false,
            }),
            final(self).skips_unit() == (old(self).skips_unit() || skip),
            final(self).depth() == old(self).depth(),
            final(self).has_transformed() == old(self).has_transformed(),
            final(self).marked() == old(self).marked(),
    {
        match first {
            Some(item) => {
                if is_no_inline_directive(item) {
                    self.skip_file = true;
                    true
                } else {
                    false
                }
            },
            None => false,
        }
    }

    /// The identifier `$$inline`.
    pub fn inline_ident(&self) -> (n: Node)
        ensures
            n@ == helper_ident(),
    {
        Node::Ident(String::from_str(INLINE_BINDING))
    }

    /// `$$inline(arg)`: a call of the helper with `arg` as its one argument.
    pub fn inline_call(&self, arg: Node) -> (n: Node)
        ensures
            n@ == helper_call(arg@),
    {
        let mut args: Vec<Node> = Vec::new();
        args.push(arg);
        let n = Node::Call { callee: Box::new(self.inline_ident()), args };
        proof {
            assert(trees_of(args@) =~= seq![arg@]);
        }
        n
    }

    /// `(yield $$inline(arg))`: a parenthesised plain yield of the helper's
    /// call.
    pub fn yield_inline(&self, arg: Node) -> (n: Node)
        ensures
            n@ == wrapped_yield(arg@),
    {
        proof {
            reveal_with_fuel(tree_of, 2);
        }
        Node::Paren(
            Box::new(Node::Yield { delegate: false, arg: Some(Box::new(self.inline_call(arg))) }),
        )
    }

    /// `import { inline as $$inline } from "@effectionx/inline"`.
    pub fn inline_import(&self) -> (n: Node)
        ensures
            n@ == helper_import(),
    {
        Node::Import {
            local: String::from_str(INLINE_BINDING),
            imported: String::from_str(INLINE_EXPORT),
            source: String::from_str(INLINE_MODULE),
        }
    }
}

} // verus!
