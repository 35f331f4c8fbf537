use inline_transform::ast::{Module, Node, Program, Script};
use inline_transform::comments::{
    any_noinline_comment, contains_bytes, is_noinline_comment, leading_opts_out, Comment,
    CommentKind, LeadingComments, NOINLINE_MARKER,
};
use inline_transform::rewrite::{
    INLINE_BINDING, INLINE_EXPORT, INLINE_MODULE, NO_INLINE_DIRECTIVE,
};
use inline_transform::traverse::process_transform;
use inline_transform::visitor::{is_no_inline_directive, InlineTransformVisitor};
use std::collections::HashMap;

fn ident(name: &str) -> Node {
    Node::Ident(name.to_string())
}

fn call(callee: Node, args: Vec<Node>) -> Node {
    Node::Call { callee: Box::new(callee), args }
}

fn call0(name: &str) -> Node {
    call(ident(name), vec![])
}

fn yield_star(e: Node) -> Node {
    Node::Yield { delegate: true, arg: Some(Box::new(e)) }
}

fn yield_plain(e: Node) -> Node {
    Node::Yield { delegate: false, arg: Some(Box::new(e)) }
}

fn wrapped(e: Node) -> Node {
    Node::Paren(Box::new(yield_plain(call(ident("$$inline"), vec![e]))))
}

fn paren(e: Node) -> Node {
    Node::Paren(Box::new(e))
}

fn stmt(e: Node) -> Node {
    Node::ExprStmt(Box::new(e))
}

fn let_(name: &str, init: Node) -> Node {
    Node::Other(vec![Node::Other(vec![ident(name), init])])
}

fn ret(e: Node) -> Node {
    Node::Other(vec![e])
}

fn generator(pos: u32, body: Vec<Node>) -> Node {
    Node::Function { pos, is_generator: true, body }
}

fn function(pos: u32, body: Vec<Node>) -> Node {
    Node::Function { pos, is_generator: false, body }
}

fn directive(text: &str) -> Node {
    stmt(Node::Str(text.to_string()))
}

fn helper_import() -> Node {
    Node::Import {
        local: "$$inline".to_string(),
        imported: "inline".to_string(),
        source: "@effectionx/inline".to_string(),
    }
}

fn module(body: Vec<Node>) -> Program {
    Program::Module(Module { body })
}

fn script(body: Vec<Node>) -> Program {
    Program::Script(Script { body })
}

fn block(text: &str) -> Comment {
    Comment { kind: CommentKind::Block, text: text.to_string() }
}

fn line(text: &str) -> Comment {
    Comment { kind: CommentKind::Line, text: text.to_string() }
}

fn comments_at(pos: u32, comments: Vec<Comment>) -> LeadingComments {
    let mut table: LeadingComments = HashMap::new();
    table.insert(pos, comments);
    table
}

fn count_imports(p: &Program) -> usize {
    let body = match p {
        Program::Module(m) => &m.body,
        Program::Script(s) => &s.body,
    };
    body.iter().filter(|n| **n == helper_import()).count()
}

// function* gen() { let x = yield* foo(); }
#[test]
fn basic_yield_star() {
    let input = module(vec![generator(0, vec![let_("x", yield_star(call0("foo")))])]);
    let expected = module(vec![
        helper_import(),
        generator(0, vec![let_("x", wrapped(call0("foo")))]),
    ]);
    assert_eq!(process_transform(input, None), expected);
}

// function* gen() { let x = yield foo(); }
#[test]
fn plain_yield_untouched() {
    let input = module(vec![generator(0, vec![let_("x", yield_plain(call0("foo")))])]);
    let expected = module(vec![generator(0, vec![let_("x", yield_plain(call0("foo")))])]);
    assert_eq!(process_transform(input, None), expected);
}

// function foo() { return 1; }
#[test]
fn non_generator_untouched() {
    let input = module(vec![function(0, vec![ret(Node::Other(vec![]))])]);
    let expected = module(vec![function(0, vec![ret(Node::Other(vec![]))])]);
    assert_eq!(process_transform(input, None), expected);
}

#[test]
fn multiple_yield_stars() {
    let sum = || ret(Node::Other(vec![ident("a"), ident("b")]));
    let input = module(vec![generator(
        0,
        vec![
            let_("a", yield_star(call0("foo"))),
            let_("b", yield_star(call0("bar"))),
            sum(),
        ],
    )]);
    let expected = module(vec![
        helper_import(),
        generator(
            0,
            vec![
                let_("a", wrapped(call0("foo"))),
                let_("b", wrapped(call0("bar"))),
                sum(),
            ],
        ),
    ]);
    let out = process_transform(input, None);
    assert_eq!(count_imports(&out), 1);
    assert_eq!(out, expected);
}

// function* outer() { yield* (function*() { yield* inner(); })(); }
#[test]
fn nested_generators() {
    let input = module(vec![generator(
        0,
        vec![stmt(yield_star(call(
            paren(generator(30, vec![stmt(yield_star(call0("inner")))])),
            vec![],
        )))],
    )]);
    let expected = module(vec![
        helper_import(),
        generator(
            0,
            vec![stmt(wrapped(call(
                paren(generator(30, vec![stmt(wrapped(call0("inner")))])),
                vec![],
            )))],
        ),
    ]);
    assert_eq!(process_transform(input, None), expected);
}

// function* gen() { for (let x of yield* each(stream)) { yield* each.next(); } }
#[test]
fn yield_star_in_for_of() {
    let next = || call(Node::Other(vec![ident("each"), ident("next")]), vec![]);
    let input = module(vec![generator(
        0,
        vec![Node::Other(vec![
            let_("x", Node::Other(vec![])),
            yield_star(call(ident("each"), vec![ident("stream")])),
            Node::Other(vec![stmt(yield_star(next()))]),
        ])],
    )]);
    let expected = module(vec![
        helper_import(),
        generator(
            0,
            vec![Node::Other(vec![
                let_("x", Node::Other(vec![])),
                wrapped(call(ident("each"), vec![ident("stream")])),
                Node::Other(vec![stmt(wrapped(next()))]),
            ])],
        ),
    ]);
    assert_eq!(process_transform(input, None), expected);
}

// "no inline"; function* gen() { let x = yield* foo(); }
#[test]
fn file_directive_skips_all() {
    let input = module(vec![
        directive("no inline"),
        generator(20, vec![let_("x", yield_star(call0("foo")))]),
    ]);
    let expected = module(vec![generator(20, vec![let_("x", yield_star(call0("foo")))])]);
    assert_eq!(process_transform(input, None), expected);
}

#[test]
fn file_directive_skips_nested_too() {
    let tree = || {
        generator(
            20,
            vec![stmt(yield_star(call(
                paren(generator(50, vec![stmt(yield_star(call0("inner")))])),
                vec![],
            )))],
        )
    };
    let input = module(vec![directive("no inline"), tree()]);
    let expected = module(vec![tree()]);
    assert_eq!(process_transform(input, None), expected);
}

#[test]
fn directive_is_stripped_from_a_script_too() {
    let input = script(vec![
        directive("no inline"),
        generator(20, vec![stmt(yield_star(call0("foo")))]),
    ]);
    let expected = script(vec![generator(20, vec![stmt(yield_star(call0("foo")))])]);
    assert_eq!(process_transform(input, None), expected);
}

#[test]
fn script_is_rewritten_and_gets_the_import() {
    let input = script(vec![generator(0, vec![stmt(yield_star(call0("foo")))])]);
    let expected = script(vec![
        helper_import(),
        generator(0, vec![stmt(wrapped(call0("foo")))]),
    ]);
    assert_eq!(process_transform(input, None), expected);
}

#[test]
fn form_of_the_unit_is_kept() {
    assert!(matches!(process_transform(module(vec![]), None), Program::Module(_)));
    assert!(matches!(process_transform(script(vec![]), None), Program::Script(_)));
}

#[test]
fn empty_unit_is_never_skipped() {
    assert_eq!(process_transform(module(vec![]), None), module(vec![]));
    let mut v = InlineTransformVisitor::new();
    let mut m = Module { body: vec![] };
    v.visit_mut_module(&mut m);
    assert!(!v.skip_file());
    assert!(!v.transformed());
    assert_eq!(m, Module { body: vec![] });
}

#[test]
fn directive_must_match_exactly() {
    assert!(is_no_inline_directive(&directive("no inline")));
    assert!(!is_no_inline_directive(&directive("No Inline")));
    assert!(!is_no_inline_directive(&directive("no inline ")));
    assert!(!is_no_inline_directive(&directive("")));
    assert!(!is_no_inline_directive(&directive("use strict")));
    assert!(!is_no_inline_directive(&Node::Str("no inline".to_string())));
    assert!(!is_no_inline_directive(&stmt(ident("no inline"))));
    assert!(!is_no_inline_directive(&stmt(paren(Node::Str("no inline".to_string())))));
    assert!(!is_no_inline_directive(&helper_import()));
}

#[test]
fn directive_counts_only_as_first_item() {
    let input = module(vec![
        directive("use strict"),
        directive("no inline"),
        generator(40, vec![stmt(yield_star(call0("foo")))]),
    ]);
    let expected = module(vec![
        helper_import(),
        directive("use strict"),
        directive("no inline"),
        generator(40, vec![stmt(wrapped(call0("foo")))]),
    ]);
    assert_eq!(process_transform(input, None), expected);
}

#[test]
fn only_the_first_directive_is_removed() {
    let input = module(vec![directive("no inline"), directive("no inline")]);
    assert_eq!(process_transform(input, None), module(vec![directive("no inline")]));
}

#[test]
fn yield_star_outside_generators_is_kept() {
    let input = module(vec![
        stmt(yield_star(call0("foo"))),
        function(10, vec![stmt(yield_star(call0("bar")))]),
    ]);
    let expected = module(vec![
        stmt(yield_star(call0("foo"))),
        function(10, vec![stmt(yield_star(call0("bar")))]),
    ]);
    assert_eq!(process_transform(input, None), expected);
}

#[test]
fn scope_closes_after_a_generator() {
    let input = module(vec![
        generator(0, vec![stmt(yield_star(call0("a")))]),
        stmt(yield_star(call0("b"))),
    ]);
    let expected = module(vec![
        helper_import(),
        generator(0, vec![stmt(wrapped(call0("a")))]),
        stmt(yield_star(call0("b"))),
    ]);
    assert_eq!(process_transform(input, None), expected);
}

#[test]
fn plain_function_inside_generator_is_in_scope() {
    let input = module(vec![generator(
        0,
        vec![function(10, vec![stmt(yield_star(call0("a")))])],
    )]);
    let expected = module(vec![
        helper_import(),
        generator(0, vec![function(10, vec![stmt(wrapped(call0("a")))])]),
    ]);
    assert_eq!(process_transform(input, None), expected);
}

#[test]
fn operand_is_rewritten_before_the_yield_around_it() {
    let input = module(vec![generator(
        0,
        vec![stmt(yield_star(yield_star(call0("a"))))],
    )]);
    let expected = module(vec![
        helper_import(),
        generator(0, vec![stmt(wrapped(wrapped(call0("a"))))]),
    ]);
    assert_eq!(process_transform(input, None), expected);
}

#[test]
fn delegation_in_callee_and_arguments() {
    let input = module(vec![generator(
        0,
        vec![stmt(call(
            yield_star(call0("f")),
            vec![yield_star(call0("a")), yield_plain(yield_star(call0("b")))],
        ))],
    )]);
    let expected = module(vec![
        helper_import(),
        generator(
            0,
            vec![stmt(call(
                wrapped(call0("f")),
                vec![wrapped(call0("a")), yield_plain(wrapped(call0("b")))],
            ))],
        ),
    ]);
    assert_eq!(process_transform(input, None), expected);
}

#[test]
fn delegating_yield_without_operand_is_left_alone() {
    let bare = || Node::Yield { delegate: true, arg: None };
    let input = module(vec![generator(0, vec![stmt(bare())])]);
    let expected = module(vec![generator(0, vec![stmt(bare())])]);
    assert_eq!(process_transform(input, None), expected);
}

#[test]
fn second_run_changes_nothing() {
    let input = module(vec![generator(
        0,
        vec![
            let_("a", yield_star(call0("foo"))),
            stmt(yield_plain(yield_star(call0("bar")))),
        ],
    )]);
    let once = process_transform(input, None);
    let expected = module(vec![
        helper_import(),
        generator(
            0,
            vec![
                let_("a", wrapped(call0("foo"))),
                stmt(yield_plain(wrapped(call0("bar")))),
            ],
        ),
    ]);
    assert_eq!(once, expected);
    let twice = process_transform(once, None);
    assert_eq!(count_imports(&twice), 1);
    assert_eq!(twice, expected);
}

#[test]
fn import_is_absent_without_a_rewrite() {
    let out = process_transform(
        module(vec![generator(0, vec![stmt(yield_plain(call0("foo")))])]),
        None,
    );
    assert_eq!(count_imports(&out), 0);
}

#[test]
fn import_comes_first_and_once() {
    let out = process_transform(
        module(vec![
            directive("use strict"),
            generator(0, vec![stmt(yield_star(call0("a")))]),
            generator(9, vec![stmt(yield_star(call0("b")))]),
        ]),
        None,
    );
    assert_eq!(count_imports(&out), 1);
    match out {
        Program::Module(m) => {
            assert_eq!(m.body.len(), 4);
            assert_eq!(m.body[0], helper_import());
            assert_eq!(m.body[1], directive("use strict"));
        }
        Program::Script(_) => panic!("form changed"),
    }
}

#[test]
fn marker_is_found_in_block_comments_only() {
    assert!(is_noinline_comment(&block("* @noinline ")));
    assert!(is_noinline_comment(&block("@noinline")));
    assert!(is_noinline_comment(&block("keep this x@noinlinex as it is")));
    assert!(!is_noinline_comment(&block("@noinlin")));
    assert!(!is_noinline_comment(&block("@NOINLINE")));
    assert!(!is_noinline_comment(&block("@no inline")));
    assert!(!is_noinline_comment(&block("")));
    assert!(!is_noinline_comment(&line(" @noinline")));
}

#[test]
fn marker_is_found_beside_other_scripts() {
    assert!(is_noinline_comment(&block("\u{e9}t\u{e9} @noinline \u{1f600}")));
    assert!(is_noinline_comment(&block("\u{1f600}@noinline")));
    assert!(!is_noinline_comment(&block("\u{1f600}@no\u{ef}nline")));
    assert!(!is_noinline_comment(&block("@\u{ff4e}oinline")));
}

#[test]
fn byte_search() {
    assert!(contains_bytes(b"", b""));
    assert!(contains_bytes(b"abc", b""));
    assert!(!contains_bytes(b"", b"a"));
    assert!(contains_bytes(b"abc", b"abc"));
    assert!(!contains_bytes(b"abc", b"abcd"));
    assert!(contains_bytes(b"abc", b"a"));
    assert!(contains_bytes(b"abc", b"c"));
    assert!(contains_bytes(b"abc", b"bc"));
    assert!(!contains_bytes(b"abc", b"ac"));
    assert!(contains_bytes(b"aab", b"ab"));
    assert!(contains_bytes(b"ababac", b"abac"));
    assert!(!contains_bytes(b"ababab", b"abac"));
}

#[test]
fn marker_in_any_comment_of_the_list() {
    assert!(!any_noinline_comment(&vec![]));
    assert!(!any_noinline_comment(&vec![block("license"), line("@noinline")]));
    assert!(any_noinline_comment(&vec![block("license"), line("x"), block("* @noinline")]));
}

#[test]
fn lookup_answers_by_position() {
    let table = Some(comments_at(7, vec![block("* @noinline ")]));
    assert!(leading_opts_out(&table, 7));
    assert!(!leading_opts_out(&table, 8));
    assert!(!leading_opts_out(&table, 0));
    assert!(!leading_opts_out(&None, 7));
    assert!(!leading_opts_out(&Some(comments_at(7, vec![])), 7));
}

#[test]
fn marked_generator_is_excluded() {
    let input = module(vec![generator(12, vec![stmt(yield_star(call0("foo")))])]);
    let expected = module(vec![generator(12, vec![stmt(yield_star(call0("foo")))])]);
    let table = comments_at(12, vec![block("* @noinline ")]);
    assert_eq!(process_transform(input, Some(table)), expected);
}

#[test]
fn marker_at_another_position_does_not_count() {
    let input = module(vec![generator(12, vec![stmt(yield_star(call0("foo")))])]);
    let expected = module(vec![
        helper_import(),
        generator(12, vec![stmt(wrapped(call0("foo")))]),
    ]);
    let table = comments_at(13, vec![block("* @noinline ")]);
    assert_eq!(process_transform(input, Some(table)), expected);
}

#[test]
fn line_comment_does_not_mark() {
    let input = module(vec![generator(12, vec![stmt(yield_star(call0("foo")))])]);
    let expected = module(vec![
        helper_import(),
        generator(12, vec![stmt(wrapped(call0("foo")))]),
    ]);
    let table = comments_at(12, vec![line(" @noinline")]);
    assert_eq!(process_transform(input, Some(table)), expected);
}

#[test]
fn generator_inside_a_marked_one_is_rewritten() {
    let input = module(vec![generator(
        12,
        vec![
            stmt(yield_star(call0("own"))),
            generator(40, vec![stmt(yield_star(call0("inner")))]),
        ],
    )]);
    let expected = module(vec![
        helper_import(),
        generator(
            12,
            vec![
                stmt(yield_star(call0("own"))),
                generator(40, vec![stmt(wrapped(call0("inner")))]),
            ],
        ),
    ]);
    let table = comments_at(12, vec![block("* @noinline ")]);
    assert_eq!(process_transform(input, Some(table)), expected);
}

#[test]
fn marked_generator_inside_an_active_scope_is_rewritten() {
    let input = module(vec![generator(
        0,
        vec![generator(40, vec![stmt(yield_star(call0("inner")))])],
    )]);
    let expected = module(vec![
        helper_import(),
        generator(0, vec![generator(40, vec![stmt(wrapped(call0("inner")))])]),
    ]);
    let table = comments_at(40, vec![block("* @noinline ")]);
    assert_eq!(process_transform(input, Some(table)), expected);
}

#[test]
fn marked_plain_function_changes_nothing() {
    let input = module(vec![function(
        5,
        vec![generator(40, vec![stmt(yield_star(call0("inner")))])],
    )]);
    let expected = module(vec![
        helper_import(),
        function(5, vec![generator(40, vec![stmt(wrapped(call0("inner")))])]),
    ]);
    let table = comments_at(5, vec![block("* @noinline ")]);
    assert_eq!(process_transform(input, Some(table)), expected);
}

#[test]
fn fresh_visitor_state() {
    let v = InlineTransformVisitor::new();
    assert_eq!(v.generator_depth(), 0);
    assert!(!v.transformed());
    assert!(!v.skip_file());
    assert!(!v.has_noinline_annotation(3));
    let v = v.with_comments(comments_at(3, vec![block("@noinline")]));
    assert_eq!(v.generator_depth(), 0);
    assert!(!v.transformed());
    assert!(!v.skip_file());
    assert!(v.has_noinline_annotation(3));
    assert!(!v.has_noinline_annotation(4));
}

#[test]
fn depth_goes_up_and_down() {
    let mut v = InlineTransformVisitor::new();
    assert!(!v.should_rewrite(true, true));
    assert!(!v.enter_function(false, false));
    assert_eq!(v.generator_depth(), 0);
    v.leave_function(false);
    assert!(!v.enter_function(true, true));
    assert_eq!(v.generator_depth(), 0);
    v.leave_function(false);
    assert!(v.enter_function(true, false));
    assert_eq!(v.generator_depth(), 1);
    assert!(v.should_rewrite(true, true));
    assert!(!v.should_rewrite(false, true));
    assert!(!v.should_rewrite(true, false));
    assert!(v.enter_function(true, false));
    assert_eq!(v.generator_depth(), 2);
    v.leave_function(true);
    assert_eq!(v.generator_depth(), 1);
    v.leave_function(true);
    assert_eq!(v.generator_depth(), 0);
    assert!(!v.should_rewrite(true, true));
}

#[test]
fn flags_are_raised_and_stay() {
    let mut v = InlineTransformVisitor::new();
    v.note_rewrite();
    assert!(v.transformed());
    assert!(!v.skip_file());
    assert!(!v.begin_unit(None));
    assert!(!v.skip_file());
    assert!(!v.begin_unit(Some(&directive("use strict"))));
    assert!(!v.skip_file());
    assert!(v.begin_unit(Some(&directive("no inline"))));
    assert!(v.transformed());
    assert!(v.skip_file());
    assert!(!v.begin_unit(Some(&ident("x"))));
    assert!(v.skip_file());
    assert_eq!(v.generator_depth(), 0);
}

#[test]
fn visiting_leaves_the_depth_as_it_was() {
    let mut v = InlineTransformVisitor::new();
    let tree = generator(
        0,
        vec![generator(5, vec![stmt(yield_star(call0("a")))]), stmt(yield_plain(call0("b")))],
    );
    let out = v.visit_mut_expr(tree);
    assert_eq!(v.generator_depth(), 0);
    assert!(v.transformed());
    assert!(!v.skip_file());
    assert_eq!(
        out,
        generator(
            0,
            vec![generator(5, vec![stmt(wrapped(call0("a")))]), stmt(yield_plain(call0("b")))],
        )
    );
}

#[test]
fn visit_of_a_function_by_its_parts() {
    let mut v = InlineTransformVisitor::new();
    let out = v.visit_mut_function(3, true, vec![stmt(yield_star(call0("a")))]);
    assert_eq!(out, generator(3, vec![stmt(wrapped(call0("a")))]));
    assert!(v.transformed());
    let mut v = InlineTransformVisitor::new();
    let out = v.visit_mut_function(3, false, vec![stmt(yield_star(call0("a")))]);
    assert_eq!(out, function(3, vec![stmt(yield_star(call0("a")))]));
    assert!(!v.transformed());
}

#[test]
fn visit_of_children_in_order() {
    let mut v = InlineTransformVisitor::new();
    assert!(v.enter_function(true, false));
    let out = v.visit_children(vec![yield_star(ident("a")), ident("b"), yield_star(ident("c"))]);
    assert_eq!(out, vec![wrapped(ident("a")), ident("b"), wrapped(ident("c"))]);
    assert!(v.transformed());
    assert_eq!(v.generator_depth(), 1);
}

#[test]
fn skipped_unit_sets_the_flag_only() {
    let mut v = InlineTransformVisitor::new();
    let mut s = Script {
        body: vec![directive("no inline"), generator(20, vec![stmt(yield_star(call0("f")))])],
    };
    v.visit_mut_script(&mut s);
    assert!(v.skip_file());
    assert!(!v.transformed());
    assert_eq!(v.generator_depth(), 0);
    assert_eq!(s, Script { body: vec![generator(20, vec![stmt(yield_star(call0("f")))])] });
}

#[test]
fn visitor_that_rewrote_before_injects_again() {
    let mut v = InlineTransformVisitor::new();
    v.note_rewrite();
    let mut body = vec![stmt(call0("f"))];
    v.visit_unit(&mut body);
    assert_eq!(body, vec![helper_import(), stmt(call0("f"))]);
}

#[test]
fn built_nodes() {
    let v = InlineTransformVisitor::new();
    assert_eq!(v.inline_ident(), ident("$$inline"));
    assert_eq!(v.inline_call(ident("x")), call(ident("$$inline"), vec![ident("x")]));
    assert_eq!(
        v.yield_inline(call0("foo")),
        Node::Paren(Box::new(Node::Yield {
            delegate: false,
            arg: Some(Box::new(Node::Call {
                callee: Box::new(Node::Ident("$$inline".to_string())),
                args: vec![call0("foo")],
            })),
        }))
    );
    assert_eq!(
        v.inline_import(),
        Node::Import {
            local: "$$inline".to_string(),
            imported: "inline".to_string(),
            source: "@effectionx/inline".to_string(),
        }
    );
}

#[test]
fn fixed_names() {
    assert_eq!(INLINE_BINDING, "$$inline");
    assert_eq!(INLINE_EXPORT, "inline");
    assert_eq!(INLINE_MODULE, "@effectionx/inline");
    assert_eq!(NO_INLINE_DIRECTIVE, "no inline");
    assert_eq!(NOINLINE_MARKER, "@noinline");
}
