use vstd::prelude::*;
use crate::ast::{Block, BlockV, Expr, ExprV, Program, ProgramV, Stmt, StmtV};
use crate::ast::{exprs_view, lemma_exprs_view, lemma_stmts_view, stmts_view};
use crate::diag::{Diagnostic, DiagnosticKind, Severity, invalid_context_diag};
use crate::matcher::{Class, SignatureV, TargetSignature, classify, spec_classify};
use crate::rewrite::{CompilationMode, ModeV, rewrite, spec_rewrite};
use crate::scope::{FrameV, ScopeKind, ScopeStack};

verus! {

// ---------------------------------------------------------------------------
// The model of the traversal: one depth-first post-order pass. Children are
// rewritten first; then the call itself is classified and, when valid,
// replaced. These functions are what every contract of the walker states.
// ---------------------------------------------------------------------------

/// Transform one expression. `is_stmt` says whether it stands as a statement
/// of its own; `in_fn` whether some enclosing scope is a function body;
/// `depth` is the scope-stack depth at this position.
pub open spec fn tx_expr(
    e: ExprV,
    m: ModeV,
    sig: SignatureV,
    is_stmt: bool,
    in_fn: bool,
    depth: nat,
) -> (ExprV, Seq<Diagnostic>)
    decreases e,
{
    match e {
        ExprV::Ident { .. } => (e, Seq::empty()),
        ExprV::Num { .. } => (e, Seq::empty()),
        ExprV::Bin { op, lhs, rhs, span } => {
            let l = tx_expr(*lhs, m, sig, false, in_fn, depth);
            let r = tx_expr(*rhs, m, sig, false, in_fn, depth);
            (ExprV::Bin { op, lhs: Box::new(l.0), rhs: Box::new(r.0), span }, l.1 + r.1)
        },
        ExprV::Call { callee, args, span } => {
            let c = tx_expr(*callee, m, sig, false, in_fn, depth);
            let a = tx_exprs(args, m, sig, in_fn, depth);
            let e2 = ExprV::Call { callee: Box::new(c.0), args: a.0, span };
            let cls = spec_classify(e2, sig, is_stmt, in_fn);
            if cls is TargetValid {
                (spec_rewrite(e2, m, depth), c.1 + a.1)
            } else if cls is TargetInvalidContext {
                (e2, c.1 + a.1 + seq![invalid_context_diag(span)])
            } else {
                (e2, c.1 + a.1)
            }
        },
    }
}

/// Transform an argument list, left to right; none of its members stands as
/// a statement.
pub open spec fn tx_exprs(
    es: Seq<ExprV>,
    m: ModeV,
    sig: SignatureV,
    in_fn: bool,
    depth: nat,
) -> (Seq<ExprV>, Seq<Diagnostic>)
    decreases es,
{
    if es.len() == 0 {
        (Seq::empty(), Seq::empty())
    } else {
        let h = tx_expr(es[0], m, sig, false, in_fn, depth);
        let t = tx_exprs(es.drop_first(), m, sig, in_fn, depth);
        (seq![h.0] + t.0, h.1 + t.1)
    }
}

/// Transform one statement at the given scope position.
pub open spec fn tx_stmt(
    s: StmtV,
    m: ModeV,
    sig: SignatureV,
    in_fn: bool,
    depth: nat,
) -> (StmtV, Seq<Diagnostic>)
    decreases s,
{
    match s {
        StmtV::Expr { expr, span } => {
            let r = tx_expr(expr, m, sig, true, in_fn, depth);
            (StmtV::Expr { expr: r.0, span }, r.1)
        },
        StmtV::VarDecl { name, init, span } => {
            let r = tx_expr(init, m, sig, false, in_fn, depth);
            (StmtV::VarDecl { name, init: r.0, span }, r.1)
        },
        StmtV::Block { block } => {
            let r = tx_block(block, m, sig, ScopeKind::Block, in_fn, depth);
            (StmtV::Block { block: r.0 }, r.1)
        },
        StmtV::If { cond, cons, span } => {
            let c = tx_expr(cond, m, sig, false, in_fn, depth);
            let b = tx_block(cons, m, sig, ScopeKind::Block, in_fn, depth);
            (StmtV::If { cond: c.0, cons: b.0, span }, c.1 + b.1)
        },
        StmtV::FnDecl { name, params, body, span } => {
            let b = tx_block(body, m, sig, ScopeKind::Function, in_fn, depth);
            (StmtV::FnDecl { name, params, body: b.0, span }, b.1)
        },
    }
}

/// Transform a block: one scope deeper, and a function body puts the walk
/// inside a function.
pub open spec fn tx_block(
    b: BlockV,
    m: ModeV,
    sig: SignatureV,
    kind: ScopeKind,
    in_fn: bool,
    depth: nat,
) -> (BlockV, Seq<Diagnostic>)
    decreases b,
{
    let r = tx_stmts(b.stmts, m, sig, in_fn || kind == ScopeKind::Function, depth + 1);
    (BlockV { stmts: r.0, span: b.span }, r.1)
}

/// Transform a statement list, left to right.
pub open spec fn tx_stmts(
    ss: Seq<StmtV>,
    m: ModeV,
    sig: SignatureV,
    in_fn: bool,
    depth: nat,
) -> (Seq<StmtV>, Seq<Diagnostic>)
    decreases ss,
{
    if ss.len() == 0 {
        (Seq::empty(), Seq::empty())
    } else {
        let h = tx_stmt(ss[0], m, sig, in_fn, depth);
        let t = tx_stmts(ss.drop_first(), m, sig, in_fn, depth);
        (seq![h.0] + t.0, h.1 + t.1)
    }
}

/// Transform a whole program. The top level is no scope of its own: depth
/// starts at zero, outside any function body.
pub open spec fn tx_program(p: ProgramV, m: ModeV, sig: SignatureV) -> (
    ProgramV,
    Seq<Diagnostic>,
) {
    let r = tx_stmts(p.body, m, sig, false, 0);
    (ProgramV { body: r.0, span: p.span }, r.1)
}

// ---------------------------------------------------------------------------
// Bindings the walk records in the innermost scope as it passes declarations.
// ---------------------------------------------------------------------------

/// The names one statement declares in the scope holding it.
pub open spec fn stmt_decls(s: StmtV) -> Seq<Seq<char>> {
    match s {
        StmtV::VarDecl { name, .. } => seq![name],
        StmtV::FnDecl { name, .. } => seq![name],
        _ => Seq::empty(),
    }
}

/// The names a statement list declares, in order.
pub open spec fn stmts_decls(ss: Seq<StmtV>) -> Seq<Seq<char>>
    decreases ss,
{
    if ss.len() == 0 {
        Seq::empty()
    } else {
        stmt_decls(ss[0]) + stmts_decls(ss.drop_first())
    }
}

/// What declaring `names` does to a scope stack: they extend the innermost
/// frame; an empty stack takes none.
pub open spec fn push_bindings(fs: Seq<FrameV>, names: Seq<Seq<char>>) -> Seq<FrameV> {
    if fs.len() == 0 {
        fs
    } else {
        fs.update(
            fs.len() - 1,
            FrameV { kind: fs.last().kind, bindings: fs.last().bindings + names },
        )
    }
}

pub proof fn lemma_push_bindings_empty(fs: Seq<FrameV>)
    ensures
        push_bindings(fs, Seq::empty()) == fs,
{
    assert(push_bindings(fs, Seq::empty()) =~~= fs);
}

pub proof fn lemma_push_bindings_concat(fs: Seq<FrameV>, a: Seq<Seq<char>>, b: Seq<Seq<char>>)
    ensures
        push_bindings(push_bindings(fs, a), b) == push_bindings(fs, a + b),
{
    assert(push_bindings(push_bindings(fs, a), b) =~~= push_bindings(fs, a + b));
}

/// Recording bindings moves no frame and changes no frame's kind.
pub proof fn lemma_push_bindings_shape(fs: Seq<FrameV>, names: Seq<Seq<char>>)
    ensures
        push_bindings(fs, names).len() == fs.len(),
        forall|i: int|
            0 <= i < fs.len() ==> (#[trigger] push_bindings(fs, names)[i]).kind == fs[i].kind,
{
}

/// Recording bindings does not change whether a function body encloses the
/// walk.
pub proof fn lemma_push_bindings_in_function(fs: Seq<FrameV>, names: Seq<Seq<char>>)
    ensures
        crate::scope::frames_have_function(push_bindings(fs, names))
            == crate::scope::frames_have_function(fs),
{
    lemma_push_bindings_shape(fs, names);
    if crate::scope::frames_have_function(fs) {
        let i = choose|i: int| 0 <= i < fs.len() && fs[i].kind == ScopeKind::Function;
        assert(push_bindings(fs, names)[i].kind == ScopeKind::Function);
    }
    if crate::scope::frames_have_function(push_bindings(fs, names)) {
        let i = choose|i: int|
            0 <= i < push_bindings(fs, names).len() && push_bindings(fs, names)[i].kind
                == ScopeKind::Function;
        assert(fs[i].kind == ScopeKind::Function);
    }
}

// ---------------------------------------------------------------------------
// The walker itself: an explicit recursive pass returning an owned
// replacement subtree, proved equal to the model above.
// ---------------------------------------------------------------------------

/// Walk one expression, rewriting valid target calls and recording a
/// diagnostic for each misplaced one.
pub fn walk_expr(
    e: Expr,
    m: &CompilationMode,
    sig: &TargetSignature,
    is_stmt: bool,
    in_fn: bool,
    depth: usize,
    diags: &mut Vec<Diagnostic>,
) -> (r: Expr)
    ensures
        r@ == tx_expr(e@, m@, sig@, is_stmt, in_fn, depth as nat).0,
        final(diags)@ == old(diags)@ + tx_expr(e@, m@, sig@, is_stmt, in_fn, depth as nat).1,
    decreases crate::ast::expr_size(e),
{
    match e {
        Expr::Ident { name, span } => {
            let r = Expr::Ident { name, span };
            proof {
                assert(diags@ =~= old(diags)@ + tx_expr(
                    e@,
                    m@,
                    sig@,
                    is_stmt,
                    in_fn,
                    depth as nat,
                ).1);
            }
            r
        },
        Expr::Num { value, span } => {
            let r = Expr::Num { value, span };
            proof {
                assert(diags@ =~= old(diags)@ + tx_expr(
                    e@,
                    m@,
                    sig@,
                    is_stmt,
                    in_fn,
                    depth as nat,
                ).1);
            }
            r
        },
        Expr::Bin { op, lhs, rhs, span } => {
            let l2 = walk_expr(*lhs, m, sig, false, in_fn, depth, diags);
            let r2 = walk_expr(*rhs, m, sig, false, in_fn, depth, diags);
            let r = Expr::Bin { op, lhs: Box::new(l2), rhs: Box::new(r2), span };
            proof {
                assert(diags@ =~= old(diags)@ + tx_expr(
                    e@,
                    m@,
                    sig@,
                    is_stmt,
                    in_fn,
                    depth as nat,
                ).1);
            }
            r
        },
        Expr::Call { callee, args, span } => {
            let c2 = walk_expr(*callee, m, sig, false, in_fn, depth, diags);
            let a2 = walk_exprs(args, m, sig, in_fn, depth, diags);
            let e2 = Expr::Call { callee: Box::new(c2), args: a2, span };
            let cls = classify(&e2, sig, is_stmt, in_fn);
            match cls {
                Class::TargetValid => {
                    let r = rewrite(e2, m, depth);
                    proof {
                        assert(diags@ =~= old(diags)@ + tx_expr(
                            e@,
                            m@,
                            sig@,
                            is_stmt,
                            in_fn,
                            depth as nat,
                        ).1);
                    }
                    r
                },
                Class::TargetInvalidContext => {
                    diags.push(
                        Diagnostic {
                            span,
                            severity: Severity::Error,
                            kind: DiagnosticKind::InvalidTargetContext,
                        },
                    );
                    proof {
                        assert(diags@ =~= old(diags)@ + tx_expr(
                            e@,
                            m@,
                            sig@,
                            is_stmt,
                            in_fn,
                            depth as nat,
                        ).1);
                    }
                    e2
                },
                Class::NotTarget => {
                    proof {
                        assert(diags@ =~= old(diags)@ + tx_expr(
                            e@,
                            m@,
                            sig@,
                            is_stmt,
                            in_fn,
                            depth as nat,
                        ).1);
                    }
                    e2
                },
            }
        },
    }
}

/// Walk an argument list, left to right.
pub fn walk_exprs(
    es: Vec<Expr>,
    m: &CompilationMode,
    sig: &TargetSignature,
    in_fn: bool,
    depth: usize,
    diags: &mut Vec<Diagnostic>,
) -> (r: Vec<Expr>)
    ensures
        exprs_view(r@) == tx_exprs(exprs_view(es@), m@, sig@, in_fn, depth as nat).0,
        final(diags)@ == old(diags)@ + tx_exprs(exprs_view(es@), m@, sig@, in_fn, depth as nat).1,
    decreases crate::ast::exprs_size(es@),
{
    if es.len() == 0 {
        proof {
            assert(diags@ =~= old(diags)@ + tx_exprs(
                exprs_view(es@),
                m@,
                sig@,
                in_fn,
                depth as nat,
            ).1);
        }
        es
    } else {
        let ghost orig = es@;
        let mut rest = es;
        let head = rest.remove(0);
        proof {
            assert(rest@ =~= orig.drop_first());
        }
        let h2 = walk_expr(head, m, sig, false, in_fn, depth, diags);
        let mut t2 = walk_exprs(rest, m, sig, in_fn, depth, diags);
        let ghost tail_out = t2@;
        t2.insert(0, h2);
        proof {
            lemma_exprs_view(orig);
            lemma_exprs_view(t2@);
            lemma_exprs_view(tail_out);
            assert(t2@ =~= seq![h2] + tail_out);
            assert(exprs_view(orig).drop_first() =~= exprs_view(orig.drop_first()));
            assert(exprs_view(t2@) =~~= tx_exprs(
                exprs_view(es@),
                m@,
                sig@,
                in_fn,
                depth as nat,
            ).0);
            assert(diags@ =~= old(diags)@ + tx_exprs(
                exprs_view(es@),
                m@,
                sig@,
                in_fn,
                depth as nat,
            ).1);
        }
        t2
    }
}

/// Walk one statement. The scope stack gains exactly the bindings the
/// statement declares; every scope entered is left again.
pub fn walk_stmt(
    s: Stmt,
    m: &CompilationMode,
    sig: &TargetSignature,
    st: &mut ScopeStack,
    diags: &mut Vec<Diagnostic>,
) -> (r: Stmt)
    ensures
        r@ == tx_stmt(s@, m@, sig@, old(st).in_function_spec(), old(st).depth_spec()).0,
        final(diags)@ == old(diags)@ + tx_stmt(
            s@,
            m@,
            sig@,
            old(st).in_function_spec(),
            old(st).depth_spec(),
        ).1,
        final(st).frames() == push_bindings(old(st).frames(), stmt_decls(s@)),
        final(st).enters() + old(st).exits() == final(st).exits() + old(st).enters(),
    decreases crate::ast::stmt_size(s),
{
    match s {
        Stmt::Expr { expr, span } => {
            let in_fn = st.in_function();
            let depth = st.depth();
            let e2 = walk_expr(expr, m, sig, true, in_fn, depth, diags);
            proof {
                lemma_push_bindings_empty(st.frames());
            }
            Stmt::Expr { expr: e2, span }
        },
        Stmt::VarDecl { name, init, span } => {
            let in_fn = st.in_function();
            let depth = st.depth();
            let init2 = walk_expr(init, m, sig, false, in_fn, depth, diags);
            if depth > 0 {
                st.declare(name.clone());
                proof {
                    assert(st.frames() =~~= push_bindings(old(st).frames(), seq![name@]));
                }
            } else {
                proof {
                    assert(st.frames() =~~= push_bindings(old(st).frames(), seq![name@]));
                }
            }
            Stmt::VarDecl { name, init: init2, span }
        },
        Stmt::Block { block } => {
            let b2 = walk_block(block, ScopeKind::Block, m, sig, st, diags);
            proof {
                lemma_push_bindings_empty(st.frames());
            }
            Stmt::Block { block: b2 }
        },
        Stmt::If { cond, cons, span } => {
            let in_fn = st.in_function();
            let depth = st.depth();
            let c2 = walk_expr(cond, m, sig, false, in_fn, depth, diags);
            let b2 = walk_block(cons, ScopeKind::Block, m, sig, st, diags);
            proof {
                lemma_push_bindings_empty(st.frames());
                assert(diags@ =~= old(diags)@ + tx_stmt(
                    s@,
                    m@,
                    sig@,
                    old(st).in_function_spec(),
                    old(st).depth_spec(),
                ).1);
            }
            Stmt::If { cond: c2, cons: b2, span }
        },
        Stmt::FnDecl { name, params, body, span } => {
            let depth = st.depth();
            if depth > 0 {
                st.declare(name.clone());
            }
            proof {
                assert(st.frames() =~~= push_bindings(old(st).frames(), seq![name@]));
                lemma_push_bindings_shape(old(st).frames(), seq![name@]);
                lemma_push_bindings_in_function(old(st).frames(), seq![name@]);
            }
            let b2 = walk_block(body, ScopeKind::Function, m, sig, st, diags);
            Stmt::FnDecl { name, params, body: b2, span }
        },
    }
}

/// Walk a block: enter one scope, walk the statements, and leave it on the
/// way out, whatever the walk recorded.
pub fn walk_block(
    b: Block,
    kind: ScopeKind,
    m: &CompilationMode,
    sig: &TargetSignature,
    st: &mut ScopeStack,
    diags: &mut Vec<Diagnostic>,
) -> (r: Block)
    ensures
        r@ == tx_block(b@, m@, sig@, kind, old(st).in_function_spec(), old(st).depth_spec()).0,
        final(diags)@ == old(diags)@ + tx_block(
            b@,
            m@,
            sig@,
            kind,
            old(st).in_function_spec(),
            old(st).depth_spec(),
        ).1,
        final(st).frames() == old(st).frames(),
        final(st).enters() + old(st).exits() == final(st).exits() + old(st).enters(),
    decreases crate::ast::block_size(b),
{
    st.enter_scope(kind);
    proof {
        crate::scope::lemma_have_function_push(
            old(st).frames(),
            FrameV { kind, bindings: Seq::empty() },
        );
    }
    let Block { stmts, span } = b;
    let ss2 = walk_stmts(stmts, m, sig, st, diags);
    st.exit_scope();
    proof {
        assert(st.frames() =~~= old(st).frames());
    }
    Block { stmts: ss2, span }
}

/// Walk a statement list, left to right, in the current scope.
pub fn walk_stmts(
    ss: Vec<Stmt>,
    m: &CompilationMode,
    sig: &TargetSignature,
    st: &mut ScopeStack,
    diags: &mut Vec<Diagnostic>,
) -> (r: Vec<Stmt>)
    ensures
        stmts_view(r@) == tx_stmts(
            stmts_view(ss@),
            m@,
            sig@,
            old(st).in_function_spec(),
            old(st).depth_spec(),
        ).0,
        final(diags)@ == old(diags)@ + tx_stmts(
            stmts_view(ss@),
            m@,
            sig@,
            old(st).in_function_spec(),
            old(st).depth_spec(),
        ).1,
        final(st).frames() == push_bindings(old(st).frames(), stmts_decls(stmts_view(ss@))),
        final(st).enters() + old(st).exits() == final(st).exits() + old(st).enters(),
    decreases crate::ast::stmts_size(ss@),
{
    if ss.len() == 0 {
        proof {
            lemma_push_bindings_empty(st.frames());
            assert(diags@ =~= old(diags)@ + tx_stmts(
                stmts_view(ss@),
                m@,
                sig@,
                old(st).in_function_spec(),
                old(st).depth_spec(),
            ).1);
        }
        ss
    } else {
        let ghost orig = ss@;
        let mut rest = ss;
        let head = rest.remove(0);
        proof {
            assert(rest@ =~= orig.drop_first());
        }
        let h2 = walk_stmt(head, m, sig, st, diags);
        proof {
            lemma_push_bindings_shape(old(st).frames(), stmt_decls(head@));
            lemma_push_bindings_in_function(old(st).frames(), stmt_decls(head@));
        }
        let mut t2 = walk_stmts(rest, m, sig, st, diags);
        let ghost tail_out = t2@;
        t2.insert(0, h2);
        proof {
            lemma_stmts_view(orig);
            lemma_stmts_view(t2@);
            lemma_stmts_view(tail_out);
            lemma_push_bindings_concat(
                old(st).frames(),
                stmt_decls(head@),
                stmts_decls(stmts_view(rest@)),
            );
            assert(t2@ =~= seq![h2] + tail_out);
            assert(stmts_view(orig).drop_first() =~= stmts_view(orig.drop_first()));
            assert(stmt_decls(head@) + stmts_decls(stmts_view(orig.drop_first()))
                =~~= stmts_decls(stmts_view(orig)));
            assert(st.frames() =~~= push_bindings(old(st).frames(), stmts_decls(stmts_view(ss@))));
            assert(stmts_view(t2@) =~~= tx_stmts(
                stmts_view(ss@),
                m@,
                sig@,
                old(st).in_function_spec(),
                old(st).depth_spec(),
            ).0);
            assert(diags@ =~= old(diags)@ + tx_stmts(
                stmts_view(ss@),
                m@,
                sig@,
                old(st).in_function_spec(),
                old(st).depth_spec(),
            ).1);
        }
        t2
    }
}

/// Walk a whole program with a fresh scope stack.
pub fn walk_program(p: Program, m: &CompilationMode, sig: &TargetSignature) -> (r: (
    Program,
    Vec<Diagnostic>,
))
    ensures
        r.0@ == tx_program(p@, m@, sig@).0,
        r.1@ == tx_program(p@, m@, sig@).1,
{
    let mut st = ScopeStack::new();
    let mut diags: Vec<Diagnostic> = Vec::new();
    let Program { body, span } = p;
    let body2 = walk_stmts(body, m, sig, &mut st, &mut diags);
    proof {
        assert(diags@ =~= tx_program(p@, m@, sig@).1);
    }
    (Program { body: body2, span }, diags)
}

} // verus!
