//! What holds of the rewrite on every tree.

use crate::ast::Tree;
use crate::rewrite::{
    helper_import, rewrite, rewrite_all, rewrites_any, rewrites_any_of, scope_inside,
    starts_with_directive, transform_unit, wrapped_yield,
};
use vstd::prelude::*;

verus! {

/// Some top-level item of the unit is the helper's import.
pub open spec fn holds_helper_import(items: Seq<Tree>) -> bool {
    exists|i: int| 0 <= i < items.len() && #[trigger] items[i] == helper_import()
}

/// A delegating yield with an operand in an active scope becomes the wrapped
/// call of its rewritten operand.
pub proof fn law_delegation_in_scope_is_wrapped(operand: Tree, marked: Set<u32>)
    ensures
        rewrite(Tree::Yield { delegate: true, arg: Some(Box::new(operand)) }, true, marked)
            == wrapped_yield(rewrite(operand, true, marked)),
{
}

/// A plain yield stays a plain yield, in any scope: only its operand is
/// visited.
pub proof fn law_plain_yield_kept(arg: Option<Box<Tree>>, active: bool, marked: Set<u32>)
    ensures
        rewrite(Tree::Yield { delegate: false, arg }, active, marked) == (Tree::Yield {
            delegate: false,
            arg: match arg {
                Some(a) => Some(Box::new(rewrite(*a, active, marked))),
                None => None,
            },
        }),
{
}

/// Outside an active scope a delegating yield stays a delegating yield.
pub proof fn law_delegation_out_of_scope_kept(operand: Tree, marked: Set<u32>)
    ensures
        rewrite(Tree::Yield { delegate: true, arg: Some(Box::new(operand)) }, false, marked)
            == (Tree::Yield {
            delegate: true,
            arg: Some(Box::new(rewrite(operand, false, marked))),
        }),
{
}

/// After the rewrite no delegating yield with an operand is left in an
/// active scope: a second pass finds nothing to rewrite.
pub proof fn law_no_delegation_left(t: Tree, active: bool, marked: Set<u32>)
    ensures
        !rewrites_any(rewrite(t, active, marked), active, marked),
    decreases t,
{
    match t {
        Tree::Ident(_) => {},
        Tree::Str(_) => {},
        Tree::Import { .. } => {},
        Tree::Yield { delegate, arg } => match arg {
            Some(a) => {
                law_no_delegation_left(*a, active, marked);
                let inner = rewrite(*a, active, marked);
                if active && delegate {
                    reveal_with_fuel(rewrites_any, 4);
                    assert(!rewrites_any(wrapped_yield(inner), active, marked));
                }
            },
            None => {},
        },
        Tree::Paren(e) => {
            law_no_delegation_left(*e, active, marked);
        },
        Tree::ExprStmt(e) => {
            law_no_delegation_left(*e, active, marked);
        },
        Tree::Call { callee, args } => {
            law_no_delegation_left(*callee, active, marked);
            law_no_delegation_left_in_any(args, active, marked);
        },
        Tree::Function { pos, is_generator, body } => {
            law_no_delegation_left_in_any(
                body,
                scope_inside(active, is_generator, marked.contains(pos)),
                marked,
            );
        },
        Tree::Other(children) => {
            law_no_delegation_left_in_any(children, active, marked);
        },
    }
}

/// [`law_no_delegation_left`] for each tree of a sequence.
pub proof fn law_no_delegation_left_in_any(ts: Seq<Tree>, active: bool, marked: Set<u32>)
    ensures
        !rewrites_any_of(rewrite_all(ts, active, marked), active, marked),
    decreases ts,
{
    let out = rewrite_all(ts, active, marked);
    assert forall|i: int| 0 <= i < out.len() implies !rewrites_any(
        #[trigger] out[i],
        active,
        marked,
    ) by {
        law_no_delegation_left(ts[i], active, marked);
    }
}

/// Where there is nothing to rewrite, the tree comes back as it was.
pub proof fn law_untouched_without_rewrite(t: Tree, active: bool, marked: Set<u32>)
    requires
        !rewrites_any(t, active, marked),
    ensures
        rewrite(t, active, marked) == t,
    decreases t,
{
    match t {
        Tree::Ident(_) => {},
        Tree::Str(_) => {},
        Tree::Import { .. } => {},
        Tree::Yield { delegate, arg } => match arg {
            Some(a) => {
                law_untouched_without_rewrite(*a, active, marked);
            },
            None => {},
        },
        Tree::Paren(e) => {
            law_untouched_without_rewrite(*e, active, marked);
        },
        Tree::ExprStmt(e) => {
            law_untouched_without_rewrite(*e, active, marked);
        },
        Tree::Call { callee, args } => {
            law_untouched_without_rewrite(*callee, active, marked);
            law_all_untouched_without_rewrite(args, active, marked);
        },
        Tree::Function { pos, is_generator, body } => {
            law_all_untouched_without_rewrite(
                body,
                scope_inside(active, is_generator, marked.contains(pos)),
                marked,
            );
        },
        Tree::Other(children) => {
            law_all_untouched_without_rewrite(children, active, marked);
        },
    }
}

/// [`law_untouched_without_rewrite`] for a sequence.
pub proof fn law_all_untouched_without_rewrite(ts: Seq<Tree>, active: bool, marked: Set<u32>)
    requires
        !rewrites_any_of(ts, active, marked),
    ensures
        rewrite_all(ts, active, marked) == ts,
    decreases ts,
{
    let out = rewrite_all(ts, active, marked);
    assert forall|i: int| 0 <= i < ts.len() implies out[i] == ts[i] by {
        assert(!rewrites_any(ts[i], active, marked));
        law_untouched_without_rewrite(ts[i], active, marked);
    }
    assert(out =~= ts);
}

/// The rewrite is stable: applied to its own result it changes nothing.
pub proof fn law_second_pass_is_identity(t: Tree, active: bool, marked: Set<u32>)
    ensures
        rewrite(rewrite(t, active, marked), active, marked) == rewrite(t, active, marked),
{
    law_no_delegation_left(t, active, marked);
    law_untouched_without_rewrite(rewrite(t, active, marked), active, marked);
}

/// The rewrite neither makes an import nor changes one.
pub proof fn law_rewrite_keeps_imports(t: Tree, active: bool, marked: Set<u32>)
    ensures
        (rewrite(t, active, marked) is Import) == (t is Import),
        t is Import ==> rewrite(t, active, marked) == t,
{
}

/// A unit that does not start with the directive is stable under the whole
/// transform: a second run returns the first run's result unchanged.
pub proof fn law_unit_second_run_is_identity(items: Seq<Tree>, marked: Set<u32>)
    requires
        !starts_with_directive(items),
    ensures
        transform_unit(transform_unit(items, marked), marked) == transform_unit(items, marked),
{
    let body = rewrite_all(items, false, marked);
    let out = transform_unit(items, marked);
    law_no_delegation_left_in_any(items, false, marked);
    law_all_untouched_without_rewrite(body, false, marked);
    if rewrites_any_of(items, false, marked) {
        assert(out[0] == helper_import());
        assert(!starts_with_directive(out));
        assert forall|i: int| 0 <= i < out.len() implies !rewrites_any(
            #[trigger] out[i],
            false,
            marked,
        ) by {
            if i > 0 {
                assert(out[i] == body[i - 1]);
            }
        }
        law_all_untouched_without_rewrite(out, false, marked);
    } else {
        law_all_untouched_without_rewrite(items, false, marked);
        assert(out == items);
    }
}

/// In a unit that holds no import of the helper yet, the transform puts
/// that import in front exactly when it rewrote something, and nowhere
/// else: it is the first item and no later item, or it is absent.
pub proof fn law_import_iff_rewritten(items: Seq<Tree>, marked: Set<u32>)
    requires
        !holds_helper_import(items),
    ensures
        ({
            let out = transform_unit(items, marked);
            let rewrote = !starts_with_directive(items) && rewrites_any_of(items, false, marked);
            &&& rewrote ==> out.len() == items.len() + 1 && out[0] == helper_import()
                && !holds_helper_import(out.drop_first())
            &&& !rewrote ==> !holds_helper_import(out)
            &&& rewrote ==> out.drop_first() == rewrite_all(items, false, marked)
        }),
{
    let out = transform_unit(items, marked);
    let body = rewrite_all(items, false, marked);
    assert forall|i: int| 0 <= i < body.len() implies #[trigger] body[i] != helper_import() by {
        law_rewrite_keeps_imports(items[i], false, marked);
        assert(items[i] != helper_import());
    }
    if starts_with_directive(items) {
        assert forall|i: int| 0 <= i < out.len() implies #[trigger] out[i] != helper_import() by {
            assert(out[i] == items[i + 1]);
        }
    } else if rewrites_any_of(items, false, marked) {
        assert(out.drop_first() =~= body);
    }
}

/// A unit that starts with the directive comes back without it and is not
/// rewritten anywhere.
pub proof fn law_directive_skips_unit(items: Seq<Tree>, marked: Set<u32>)
    requires
        starts_with_directive(items),
    ensures
        transform_unit(items, marked) == items.drop_first(),
        transform_unit(items, marked).len() == items.len() - 1,
        forall|i: int|
            0 <= i < items.len() - 1 ==> #[trigger] transform_unit(items, marked)[i] == items[i
                + 1],
{
}

/// An unmarked generator opens an active scope: everything inside it is
/// rewritten as in an active scope, whatever the scope around it.
pub proof fn law_unmarked_generator_opens_scope(
    pos: u32,
    body: Seq<Tree>,
    active: bool,
    marked: Set<u32>,
)
    requires
        !marked.contains(pos),
    ensures
        rewrite(Tree::Function { pos, is_generator: true, body }, active, marked)
            == (Tree::Function { pos, is_generator: true, body: rewrite_all(body, true, marked) }),
{
}

/// A tree without any generator function in it.
pub open spec fn generator_free(t: Tree) -> bool
    decreases t,
{
    match t {
        Tree::Ident(_) => true,
        Tree::Str(_) => true,
        Tree::Import { .. } => true,
        Tree::Yield { arg, .. } => match arg {
            Some(a) => generator_free(*a),
            None => true,
        },
        Tree::Paren(e) => generator_free(*e),
        Tree::ExprStmt(e) => generator_free(*e),
        Tree::Call { callee, args } => generator_free(*callee) && all_generator_free(args),
        Tree::Function { is_generator, body, .. } => !is_generator && all_generator_free(body),
        Tree::Other(children) => all_generator_free(children),
    }
}

/// Each tree of the sequence is without any generator function.
pub open spec fn all_generator_free(ts: Seq<Tree>) -> bool
    decreases ts,
{
    forall|i: int| 0 <= i < ts.len() ==> generator_free(#[trigger] ts[i])
}

/// Outside every generator nothing is rewritten: a tree without a generator
/// function, visited from an inactive scope, comes back as it was.
pub proof fn law_nothing_outside_generators(t: Tree, marked: Set<u32>)
    requires
        generator_free(t),
    ensures
        !rewrites_any(t, false, marked),
        rewrite(t, false, marked) == t,
    decreases t,
{
    match t {
        Tree::Ident(_) => {},
        Tree::Str(_) => {},
        Tree::Import { .. } => {},
        Tree::Yield { delegate, arg } => match arg {
            Some(a) => {
                law_nothing_outside_generators(*a, marked);
            },
            None => {},
        },
        Tree::Paren(e) => {
            law_nothing_outside_generators(*e, marked);
        },
        Tree::ExprStmt(e) => {
            law_nothing_outside_generators(*e, marked);
        },
        Tree::Call { callee, args } => {
            law_nothing_outside_generators(*callee, marked);
            law_nothing_outside_generators_in_any(args, marked);
        },
        Tree::Function { pos, is_generator, body } => {
            law_nothing_outside_generators_in_any(body, marked);
        },
        Tree::Other(children) => {
            law_nothing_outside_generators_in_any(children, marked);
        },
    }
}

/// [`law_nothing_outside_generators`] for a sequence.
pub proof fn law_nothing_outside_generators_in_any(ts: Seq<Tree>, marked: Set<u32>)
    requires
        all_generator_free(ts),
    ensures
        !rewrites_any_of(ts, false, marked),
        rewrite_all(ts, false, marked) == ts,
    decreases ts,
{
    assert forall|i: int| 0 <= i < ts.len() implies !rewrites_any(#[trigger] ts[i], false, marked)
        && rewrite_all(ts, false, marked)[i] == ts[i] by {
        law_nothing_outside_generators(ts[i], marked);
    }
    assert(rewrite_all(ts, false, marked) =~= ts);
}

/// `t` has the form of a wrapped call, `(yield $$inline(x))`, for some `x`.
pub open spec fn is_wrapped(t: Tree) -> bool {
    exists|x: Tree| t == wrapped_yield(x)
}

/// No part of `t` has the form of a wrapped call.
pub open spec fn free_of_wrapped(t: Tree) -> bool
    decreases t,
{
    &&& !is_wrapped(t)
    &&& match t {
        Tree::Ident(_) => true,
        Tree::Str(_) => true,
        Tree::Import { .. } => true,
        Tree::Yield { arg, .. } => match arg {
            Some(a) => free_of_wrapped(*a),
            None => true,
        },
        Tree::Paren(e) => free_of_wrapped(*e),
        Tree::ExprStmt(e) => free_of_wrapped(*e),
        Tree::Call { callee, args } => free_of_wrapped(*callee) && all_free_of_wrapped(args),
        Tree::Function { body, .. } => all_free_of_wrapped(body),
        Tree::Other(children) => all_free_of_wrapped(children),
    }
}

/// No part of any tree of the sequence has the form of a wrapped call.
pub open spec fn all_free_of_wrapped(ts: Seq<Tree>) -> bool
    decreases ts,
{
    forall|i: int| 0 <= i < ts.len() ==> free_of_wrapped(#[trigger] ts[i])
}

/// The tree with every wrapped call turned back into a delegating yield of
/// its operand, innermost first.
pub open spec fn unwrapped(t: Tree) -> Tree
    decreases t,
{
    match t {
        Tree::Ident(_) => t,
        Tree::Str(_) => t,
        Tree::Import { .. } => t,
        Tree::Yield { delegate, arg } => match arg {
            Some(a) => Tree::Yield { delegate, arg: Some(Box::new(unwrapped(*a))) },
            None => t,
        },
        Tree::Paren(e) => {
            let inner = Tree::Paren(Box::new(unwrapped(*e)));
            if is_wrapped(inner) {
                Tree::Yield {
                    delegate: true,
                    arg: Some(Box::new(choose|x: Tree| inner == wrapped_yield(x))),
                }
            } else {
                inner
            }
        },
        Tree::ExprStmt(e) => Tree::ExprStmt(Box::new(unwrapped(*e))),
        Tree::Call { callee, args } => Tree::Call {
            callee: Box::new(unwrapped(*callee)),
            args: all_unwrapped(args),
        },
        Tree::Function { pos, is_generator, body } => Tree::Function {
            pos,
            is_generator,
            body: all_unwrapped(body),
        },
        Tree::Other(children) => Tree::Other(all_unwrapped(children)),
    }
}

/// Each tree of the sequence with its wrapped calls turned back.
pub open spec fn all_unwrapped(ts: Seq<Tree>) -> Seq<Tree>
    decreases ts,
{
    Seq::new(
        ts.len(),
        |i: int|
            if 0 <= i < ts.len() {
                unwrapped(ts[i])
            } else {
                arbitrary()
            },
    )
}

/// A wrapped call has one operand only.
pub proof fn law_wrapped_operand_is_unique(x: Tree, y: Tree)
    requires
        wrapped_yield(x) == wrapped_yield(y),
    ensures
        x == y,
{
    let a = seq![x];
    let b = seq![y];
    assert(a == b);
    assert(a[0] == b[0]);
}

/// The rewrite changes nothing but the delegating yields it replaces: in a
/// tree that holds no wrapped call to begin with, turning every wrapped call
/// of the result back into a delegating yield gives the tree as it was.
/// Every plain yield, and everything else, is therefore where and what it
/// was.
pub proof fn law_rewrite_only_wraps(t: Tree, active: bool, marked: Set<u32>)
    requires
        free_of_wrapped(t),
    ensures
        unwrapped(rewrite(t, active, marked)) == t,
    decreases t,
{
    match t {
        Tree::Ident(_) => {},
        Tree::Str(_) => {},
        Tree::Import { .. } => {},
        Tree::Yield { delegate, arg } => match arg {
            Some(a) => {
                law_rewrite_only_wraps(*a, active, marked);
                let r = rewrite(*a, active, marked);
                if active && delegate {
                    reveal_with_fuel(unwrapped, 4);
                    assert(all_unwrapped(seq![r]) =~= seq![*a]);
                    let inner = wrapped_yield(*a);
                    assert(is_wrapped(inner));
                    law_wrapped_operand_is_unique(choose|x: Tree| inner == wrapped_yield(x), *a);
                    assert(unwrapped(wrapped_yield(r)) == t);
                }
            },
            None => {},
        },
        Tree::Paren(e) => {
            law_rewrite_only_wraps(*e, active, marked);
        },
        Tree::ExprStmt(e) => {
            law_rewrite_only_wraps(*e, active, marked);
        },
        Tree::Call { callee, args } => {
            law_rewrite_only_wraps(*callee, active, marked);
            law_rewrite_only_wraps_in_any(args, active, marked);
        },
        Tree::Function { pos, is_generator, body } => {
            law_rewrite_only_wraps_in_any(
                body,
                scope_inside(active, is_generator, marked.contains(pos)),
                marked,
            );
        },
        Tree::Other(children) => {
            law_rewrite_only_wraps_in_any(children, active, marked);
        },
    }
}

/// [`law_rewrite_only_wraps`] for a sequence.
pub proof fn law_rewrite_only_wraps_in_any(ts: Seq<Tree>, active: bool, marked: Set<u32>)
    requires
        all_free_of_wrapped(ts),
    ensures
        all_unwrapped(rewrite_all(ts, active, marked)) == ts,
    decreases ts,
{
    let out = all_unwrapped(rewrite_all(ts, active, marked));
    assert forall|i: int| 0 <= i < ts.len() implies out[i] == ts[i] by {
        law_rewrite_only_wraps(ts[i], active, marked);
    }
    assert(out =~= ts);
}

/// A marked generator is visited like an ordinary function at the same
/// place: it opens no scope of its own, and its body is rewritten in the
/// scope around it. Outside every unmarked generator its own delegating
/// yields therefore stay.
pub proof fn law_marked_generator_opens_no_scope(
    pos: u32,
    body: Seq<Tree>,
    active: bool,
    marked: Set<u32>,
)
    requires
        marked.contains(pos),
    ensures
        rewrite(Tree::Function { pos, is_generator: true, body }, active, marked)
            == (Tree::Function {
            pos,
            is_generator: true,
            body: rewrite_all(body, active, marked),
        }),
        rewrites_any(Tree::Function { pos, is_generator: true, body }, active, marked)
            == rewrites_any(Tree::Function { pos, is_generator: false, body }, active, marked),
{
}

/// An unmarked generator declared in the body of a marked one is rewritten
/// all the same, while a delegating yield of the marked generator itself
/// stays when no unmarked generator encloses it.
pub proof fn law_generator_inside_marked_is_rewritten(
    outer_pos: u32,
    outer_body: Seq<Tree>,
    own: int,
    own_operand: Tree,
    nested: int,
    inner_pos: u32,
    inner_body: Seq<Tree>,
    at: int,
    operand: Tree,
    marked: Set<u32>,
)
    requires
        marked.contains(outer_pos),
        !marked.contains(inner_pos),
        0 <= own < outer_body.len(),
        outer_body[own] == (Tree::Yield { delegate: true, arg: Some(Box::new(own_operand)) }),
        0 <= nested < outer_body.len(),
        outer_body[nested] == (Tree::Function {
            pos: inner_pos,
            is_generator: true,
            body: inner_body,
        }),
        0 <= at < inner_body.len(),
        inner_body[at] == (Tree::Yield { delegate: true, arg: Some(Box::new(operand)) }),
    ensures
        ({
            let out = rewrite(
                Tree::Function { pos: outer_pos, is_generator: true, body: outer_body },
                false,
                marked,
            );
            &&& out is Function
            &&& out->Function_body.len() == outer_body.len()
            &&& out->Function_body[own] == (Tree::Yield {
                delegate: true,
                arg: Some(Box::new(rewrite(own_operand, false, marked))),
            })
            &&& out->Function_body[nested] is Function
            &&& out->Function_body[nested]->Function_body.len() == inner_body.len()
            &&& out->Function_body[nested]->Function_body[at] == wrapped_yield(
                rewrite(operand, true, marked),
            )
        }),
{
    let outer = rewrite_all(outer_body, false, marked);
    assert(outer[nested] == rewrite(outer_body[nested], false, marked));
    assert(outer[own] == rewrite(outer_body[own], false, marked));
    let inner = rewrite_all(inner_body, true, marked);
    assert(inner[at] == rewrite(inner_body[at], true, marked));
}

} // verus!
