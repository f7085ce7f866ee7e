use saraswati::ast::{Block, Expr, Program, Span, Stmt};
use saraswati::diag::{Diagnostic, DiagnosticKind, Severity};
use saraswati::matcher::TargetSignature;
use saraswati::rewrite::CompilationMode;
use saraswati::{transform, Compiler, Error};

fn sp(lo: u32, hi: u32) -> Span {
    Span { lo, hi }
}

fn ident(name: &str, lo: u32, hi: u32) -> Expr {
    Expr::Ident { name: name.to_string(), span: sp(lo, hi) }
}

fn num(value: u64, lo: u32, hi: u32) -> Expr {
    Expr::Num { value, span: sp(lo, hi) }
}

fn call(callee: Expr, args: Vec<Expr>, lo: u32, hi: u32) -> Expr {
    Expr::Call { callee: Box::new(callee), args, span: sp(lo, hi) }
}

fn expr_stmt(expr: Expr, lo: u32, hi: u32) -> Stmt {
    Stmt::Expr { expr, span: sp(lo, hi) }
}

fn signature(name: &str, arity: usize, require_stmt: bool, require_function: bool) -> TargetSignature {
    TargetSignature { name: name.to_string(), arity, require_stmt, require_function }
}

/// `function f() { g(); { target(1); } }` with `target` matching the
/// signature and `g` not: `g()` stays, `target(1)` is rewritten, and no
/// diagnostic is recorded.
#[test]
fn function_body_with_inner_block() {
    // function f() { g(); { target(1); } }
    //               f: 9..10, g(): 15..18, target call: 23..32, "target": 23..29, 1: 30..31
    let tree = Program {
        body: vec![Stmt::FnDecl {
            name: "f".to_string(),
            params: vec![],
            body: Block {
                stmts: vec![
                    expr_stmt(call(ident("g", 15, 16), vec![], 15, 18), 15, 19),
                    Stmt::Block {
                        block: Block {
                            stmts: vec![expr_stmt(
                                call(ident("target", 23, 29), vec![num(1, 30, 31)], 23, 32),
                                23,
                                33,
                            )],
                            span: sp(21, 35),
                        },
                    },
                ],
                span: sp(13, 37),
            },
            span: sp(0, 37),
        }],
        span: sp(0, 37),
    };
    let mode = CompilationMode::Direct { helper: "__saraswati".to_string() };
    let sig = signature("target", 1, false, true);
    let (out, diags) = transform(tree, &mode, &sig).unwrap();

    let expected = Program {
        body: vec![Stmt::FnDecl {
            name: "f".to_string(),
            params: vec![],
            body: Block {
                stmts: vec![
                    expr_stmt(call(ident("g", 15, 16), vec![], 15, 18), 15, 19),
                    Stmt::Block {
                        block: Block {
                            stmts: vec![expr_stmt(
                                call(
                                    ident("__saraswati", 23, 29),
                                    vec![num(1, 30, 31)],
                                    23,
                                    32,
                                ),
                                23,
                                33,
                            )],
                            span: sp(21, 35),
                        },
                    },
                ],
                span: sp(13, 37),
            },
            span: sp(0, 37),
        }],
        span: sp(0, 37),
    };
    assert_eq!(out, expected);
    assert!(diags.is_empty());
}

/// `if (x) { target(1); }` outside any function, with a signature that
/// requires target calls inside function bodies: the tree is unchanged and
/// exactly one diagnostic points at the call's span.
#[test]
fn target_in_bare_block_reported() {
    // if (x) { target(1); }   call: 9..18
    let make = || Program {
        body: vec![Stmt::If {
            cond: ident("x", 4, 5),
            cons: Block {
                stmts: vec![expr_stmt(
                    call(ident("target", 9, 15), vec![num(1, 16, 17)], 9, 18),
                    9,
                    19,
                )],
                span: sp(7, 21),
            },
            span: sp(0, 21),
        }],
        span: sp(0, 21),
    };
    let mode = CompilationMode::Direct { helper: "__saraswati".to_string() };
    let sig = signature("target", 1, false, true);
    let (out, diags) = transform(make(), &mode, &sig).unwrap();
    assert_eq!(out, make());
    assert_eq!(
        diags,
        vec![Diagnostic {
            span: sp(9, 18),
            severity: Severity::Error,
            kind: DiagnosticKind::InvalidTargetContext,
        }]
    );
}

/// A target-shaped call nested inside an arithmetic expression, where the
/// signature requires a standalone statement: one diagnostic, node
/// unchanged.
#[test]
fn target_inside_arithmetic_reported() {
    // g(target(1) + 2);   target call: 2..11
    let make = || Program {
        body: vec![expr_stmt(
            call(
                ident("g", 0, 1),
                vec![Expr::Bin {
                    op: saraswati::ast::BinOp::Add,
                    lhs: Box::new(call(ident("target", 2, 8), vec![num(1, 9, 10)], 2, 11)),
                    rhs: Box::new(num(2, 14, 15)),
                    span: sp(2, 15),
                }],
                0,
                16,
            ),
            0,
            17,
        )],
        span: sp(0, 17),
    };
    let mode = CompilationMode::Direct { helper: "__saraswati".to_string() };
    let sig = signature("target", 1, true, false);
    let (out, diags) = transform(make(), &mode, &sig).unwrap();
    assert_eq!(out, make());
    assert_eq!(
        diags,
        vec![Diagnostic {
            span: sp(2, 11),
            severity: Severity::Error,
            kind: DiagnosticKind::InvalidTargetContext,
        }]
    );
}

/// A tree with no target-shaped call comes back equal, with no diagnostics.
#[test]
fn tree_without_targets_unchanged() {
    let make = || Program {
        body: vec![
            expr_stmt(call(ident("h", 0, 1), vec![num(1, 2, 3), num(2, 4, 5)], 0, 6), 0, 7),
            Stmt::VarDecl { name: "a".to_string(), init: num(3, 12, 13), span: sp(8, 14) },
            Stmt::Block {
                block: Block {
                    stmts: vec![expr_stmt(ident("a", 17, 18), 17, 19)],
                    span: sp(15, 21),
                },
            },
        ],
        span: sp(0, 21),
    };
    let mode = CompilationMode::Scoped { helper: "__saraswati".to_string() };
    let sig = signature("target", 1, false, false);
    let (out, diags) = transform(make(), &mode, &sig).unwrap();
    assert_eq!(out, make());
    assert!(diags.is_empty());
}

/// The scoped strategy passes the call site's lexical depth as a fresh
/// leading argument carrying the empty span at the end of the callee.
#[test]
fn scoped_mode_inserts_depth() {
    // function f() { { target(7); } }   callee: 17..23, arg: 24..25
    let tree = Program {
        body: vec![Stmt::FnDecl {
            name: "f".to_string(),
            params: vec![],
            body: Block {
                stmts: vec![Stmt::Block {
                    block: Block {
                        stmts: vec![expr_stmt(
                            call(ident("target", 17, 23), vec![num(7, 24, 25)], 17, 26),
                            17,
                            27,
                        )],
                        span: sp(15, 29),
                    },
                }],
                span: sp(13, 31),
            },
            span: sp(0, 31),
        }],
        span: sp(0, 31),
    };
    let mode = CompilationMode::Scoped { helper: "__sx".to_string() };
    let sig = signature("target", 1, false, true);
    let (out, diags) = transform(tree, &mode, &sig).unwrap();
    assert!(diags.is_empty());
    // the call stands two scopes deep: the function body and the inner block
    let expected_call = call(
        ident("__sx", 17, 23),
        vec![num(2, 23, 23), num(7, 24, 25)],
        17,
        26,
    );
    match &out.body[0] {
        Stmt::FnDecl { body, .. } => match &body.stmts[0] {
            Stmt::Block { block } => match &block.stmts[0] {
                Stmt::Expr { expr, .. } => assert_eq!(*expr, expected_call),
                other => panic!("unexpected statement {:?}", other),
            },
            other => panic!("unexpected statement {:?}", other),
        },
        other => panic!("unexpected statement {:?}", other),
    }
}

/// A statement-position target call at the top level is valid when the
/// signature asks only for statement position; depth there is zero.
#[test]
fn statement_position_at_top_level() {
    let tree = Program {
        body: vec![expr_stmt(call(ident("target", 0, 6), vec![num(5, 7, 8)], 0, 9), 0, 10)],
        span: sp(0, 10),
    };
    let mode = CompilationMode::Scoped { helper: "__sx".to_string() };
    let sig = signature("target", 1, true, false);
    let (out, diags) = transform(tree, &mode, &sig).unwrap();
    assert!(diags.is_empty());
    let expected = Program {
        body: vec![expr_stmt(
            call(ident("__sx", 0, 6), vec![num(0, 6, 6), num(5, 7, 8)], 0, 9),
            0,
            10,
        )],
        span: sp(0, 10),
    };
    assert_eq!(out, expected);
}

/// A call whose name matches but whose arity does not is no target at all:
/// no rewrite, no diagnostic.
#[test]
fn arity_mismatch_is_not_a_target() {
    let make = || Program {
        body: vec![expr_stmt(
            call(ident("target", 0, 6), vec![num(1, 7, 8), num(2, 9, 10)], 0, 11),
            0,
            12,
        )],
        span: sp(0, 12),
    };
    let mode = CompilationMode::Direct { helper: "__saraswati".to_string() };
    let sig = signature("target", 1, true, false);
    let (out, diags) = transform(make(), &mode, &sig).unwrap();
    assert_eq!(out, make());
    assert!(diags.is_empty());
}

/// A mode whose helper is the target name itself is an internal
/// inconsistency: the whole transformation refuses, returning no tree.
#[test]
fn helper_matching_target_name_is_refused() {
    let tree = Program { body: vec![], span: sp(0, 0) };
    let mode = CompilationMode::Direct { helper: "target".to_string() };
    let sig = signature("target", 1, false, false);
    assert_eq!(transform(tree, &mode, &sig), Err(Error::InternalInconsistency));
}

/// An empty program stays empty under any configuration.
#[test]
fn empty_program() {
    let tree = Program { body: vec![], span: sp(0, 0) };
    let mode = CompilationMode::Direct { helper: "__saraswati".to_string() };
    let sig = signature("target", 0, false, false);
    let (out, diags) = transform(tree, &mode, &sig).unwrap();
    assert_eq!(out, Program { body: vec![], span: sp(0, 0) });
    assert!(diags.is_empty());
}

/// `Compiler::compile_program` applies the compiler's own mode and
/// signature, like `transform`.
#[test]
fn compiler_compile_program() {
    let tree = Program {
        body: vec![expr_stmt(call(ident("target", 0, 6), vec![], 0, 8), 0, 9)],
        span: sp(0, 9),
    };
    let compiler = Compiler::new(
        CompilationMode::Direct { helper: "__saraswati".to_string() },
        signature("target", 0, true, false),
    );
    let (out, diags) = compiler.compile_program(tree).unwrap();
    let expected = Program {
        body: vec![expr_stmt(call(ident("__saraswati", 0, 6), vec![], 0, 8), 0, 9)],
        span: sp(0, 9),
    };
    assert_eq!(out, expected);
    assert!(diags.is_empty());
}

/// Nested target calls: with no positional constraints, an argument of a
/// target call is itself a valid target, and both are rewritten in one
/// pass, children first.
#[test]
fn nested_targets_rewritten_children_first() {
    // target(target(1))
    let tree = Program {
        body: vec![expr_stmt(
            call(
                ident("target", 0, 6),
                vec![call(ident("target", 7, 13), vec![num(1, 14, 15)], 7, 16)],
                0,
                17,
            ),
            0,
            18,
        )],
        span: sp(0, 18),
    };
    let mode = CompilationMode::Direct { helper: "__saraswati".to_string() };
    let sig = signature("target", 1, false, false);
    let (out, diags) = transform(tree, &mode, &sig).unwrap();
    let expected = Program {
        body: vec![expr_stmt(
            call(
                ident("__saraswati", 0, 6),
                vec![call(ident("__saraswati", 7, 13), vec![num(1, 14, 15)], 7, 16)],
                0,
                17,
            ),
            0,
            18,
        )],
        span: sp(0, 18),
    };
    assert_eq!(out, expected);
    assert!(diags.is_empty());
}

/// A target call in a declaration's initializer is rewritten when the
/// signature puts no constraint on position.
#[test]
fn target_in_initializer() {
    let tree = Program {
        body: vec![Stmt::VarDecl {
            name: "a".to_string(),
            init: call(ident("target", 8, 14), vec![num(1, 15, 16)], 8, 17),
            span: sp(0, 18),
        }],
        span: sp(0, 18),
    };
    let mode = CompilationMode::Direct { helper: "__saraswati".to_string() };
    let sig = signature("target", 1, false, false);
    let (out, diags) = transform(tree, &mode, &sig).unwrap();
    let expected = Program {
        body: vec![Stmt::VarDecl {
            name: "a".to_string(),
            init: call(ident("__saraswati", 8, 14), vec![num(1, 15, 16)], 8, 17),
            span: sp(0, 18),
        }],
        span: sp(0, 18),
    };
    assert_eq!(out, expected);
    assert!(diags.is_empty());
}

/// A target call in an `if` condition is not a statement of its own: under
/// a statement-position signature it is reported and left unchanged.
#[test]
fn target_in_condition_reported() {
    let make = || Program {
        body: vec![Stmt::If {
            cond: call(ident("target", 4, 10), vec![num(1, 11, 12)], 4, 13),
            cons: Block { stmts: vec![], span: sp(15, 17) },
            span: sp(0, 17),
        }],
        span: sp(0, 17),
    };
    let mode = CompilationMode::Direct { helper: "__saraswati".to_string() };
    let sig = signature("target", 1, true, false);
    let (out, diags) = transform(make(), &mode, &sig).unwrap();
    assert_eq!(out, make());
    assert_eq!(
        diags,
        vec![Diagnostic {
            span: sp(4, 13),
            severity: Severity::Error,
            kind: DiagnosticKind::InvalidTargetContext,
        }]
    );
}

/// The diagnostic kind renders to a fixed, non-empty description.
#[test]
fn diagnostic_message_text() {
    assert_eq!(
        DiagnosticKind::InvalidTargetContext.message(),
        "target call in a position the signature does not allow"
    );
}
