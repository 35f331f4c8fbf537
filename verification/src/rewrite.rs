//! What the transform computes, stated over mathematical trees.
//!
//! A delegating yield with an operand is rewritten when it stands in an
//! active generator scope. A scope becomes active on entering a generator
//! function that is not marked for opt-out, and stays active in everything
//! nested in it.

use crate::ast::Tree;
use vstd::prelude::*;

verus! {

/// The local name that the helper is bound to.
pub const INLINE_BINDING: &'static str = "$$inline";

/// The name under which the helper is exported.
pub const INLINE_EXPORT: &'static str = "inline";

/// The module that exports the helper.
pub const INLINE_MODULE: &'static str = "@effectionx/inline";

/// The text of the directive that switches the transform off for a unit.
pub const NO_INLINE_DIRECTIVE: &'static str = "no inline";

/// A reference to the helper.
pub open spec fn helper_ident() -> Tree {
    Tree::Ident(INLINE_BINDING@)
}

/// `$$inline(arg)`.
pub open spec fn helper_call(arg: Tree) -> Tree {
    Tree::Call { callee: Box::new(helper_ident()), args: seq![arg] }
}

/// `(yield $$inline(arg))`.
pub open spec fn wrapped_yield(arg: Tree) -> Tree {
    Tree::Paren(
        Box::new(Tree::Yield { delegate: false, arg: Some(Box::new(helper_call(arg))) }),
    )
}

/// `import { inline as $$inline } from "@effectionx/inline"`.
pub open spec fn helper_import() -> Tree {
    Tree::Import {
        local: INLINE_BINDING@,
        imported: INLINE_EXPORT@,
        source: INLINE_MODULE@,
    }
}

/// An expression statement made of the directive's string literal alone.
pub open spec fn is_directive(t: Tree) -> bool {
    t == Tree::ExprStmt(Box::new(Tree::Str(NO_INLINE_DIRECTIVE@)))
}

/// The unit has a first item and it is the directive.
pub open spec fn starts_with_directive(items: Seq<Tree>) -> bool {
    items.len() > 0 && is_directive(items[0])
}

/// Whether the scope is active inside a function, given whether it is active
/// around it.
pub open spec fn scope_inside(active: bool, is_generator: bool, marked: bool) -> bool {
    active || (is_generator && !marked)
}

/// The tree after the rewrite. `active` says whether `t` stands in an active
/// generator scope; `marked` holds the positions of the functions that opted
/// out.
pub open spec fn rewrite(t: Tree, active: bool, marked: Set<u32>) -> Tree
    decreases t,
{
    match t {
        Tree::Ident(_) => t,
        Tree::Str(_) => t,
        Tree::Import { .. } => t,
        Tree::Yield { delegate, arg } => match arg {
            Some(a) => {
                let inner = rewrite(*a, active, marked);
                if active && delegate {
                    wrapped_yield(inner)
                } else {
                    Tree::Yield { delegate, arg: Some(Box::new(inner)) }
                }
            },
            None => t,
        },
        Tree::Paren(e) => Tree::Paren(Box::new(rewrite(*e, active, marked))),
        Tree::ExprStmt(e) => Tree::ExprStmt(Box::new(rewrite(*e, active, marked))),
        Tree::Call { callee, args } => Tree::Call {
            callee: Box::new(rewrite(*callee, active, marked)),
            args: rewrite_all(args, active, marked),
        },
        Tree::Function { pos, is_generator, body } => Tree::Function {
            pos,
            is_generator,
            body: rewrite_all(
                body,
                scope_inside(active, is_generator, marked.contains(pos)),
                marked,
            ),
        },
        Tree::Other(children) => Tree::Other(rewrite_all(children, active, marked)),
    }
}

/// Each tree of the sequence after the rewrite, in the same order.
pub open spec fn rewrite_all(ts: Seq<Tree>, active: bool, marked: Set<u32>) -> Seq<Tree>
    decreases ts,
{
    Seq::new(
        ts.len(),
        |i: int|
            if 0 <= i < ts.len() {
                rewrite(ts[i], active, marked)
            } else {
                arbitrary()
            },
    )
}

/// Whether the rewrite replaces at least one node of `t`: some delegating
/// yield with an operand stands in an active scope.
pub open spec fn rewrites_any(t: Tree, active: bool, marked: Set<u32>) -> bool
    decreases t,
{
    match t {
        Tree::Ident(_) => false,
        Tree::Str(_) => false,
        Tree::Import { .. } => false,
        Tree::Yield { delegate, arg } => match arg {
            Some(a) => (active && delegate) || rewrites_any(*a, active, marked),
            None => false,
        },
        Tree::Paren(e) => rewrites_any(*e, active, marked),
        Tree::ExprStmt(e) => rewrites_any(*e, active, marked),
        Tree::Call { callee, args } => rewrites_any(*callee, active, marked)
            || rewrites_any_of(args, active, marked),
        Tree::Function { pos, is_generator, body } => rewrites_any_of(
            body,
            scope_inside(active, is_generator, marked.contains(pos)),
            marked,
        ),
        Tree::Other(children) => rewrites_any_of(children, active, marked),
    }
}

/// Whether the rewrite replaces at least one node in some tree of `ts`.
pub open spec fn rewrites_any_of(ts: Seq<Tree>, active: bool, marked: Set<u32>) -> bool
    decreases ts,
{
    exists|i: int| 0 <= i < ts.len() && rewrites_any(#[trigger] ts[i], active, marked)
}

/// The items of a unit after a visitor has gone through it, for a visitor
/// in any state: `active` says whether its depth is positive, `already`
/// whether it has rewritten something before.
///
/// A unit that starts with the directive loses it and is otherwise left as
/// it is. Any other unit has each item rewritten, and gets the helper's
/// import in front when the visitor has rewritten something by then.
pub open spec fn unit_after_visit(
    items: Seq<Tree>,
    active: bool,
    already: bool,
    marked: Set<u32>,
) -> Seq<Tree> {
    if starts_with_directive(items) {
        items.drop_first()
    } else if already || rewrites_any_of(items, active, marked) {
        seq![helper_import()] + rewrite_all(items, active, marked)
    } else {
        rewrite_all(items, active, marked)
    }
}

/// The items of a unit after the whole transform: what a fresh visitor,
/// outside every generator and with nothing rewritten yet, makes of them.
pub open spec fn transform_unit(items: Seq<Tree>, marked: Set<u32>) -> Seq<Tree> {
    unit_after_visit(items, false, false, marked)
}

} // verus!
