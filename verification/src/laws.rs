use vstd::prelude::*;
use crate::ast::{BlockV, ExprV, ProgramV, StmtV};
use crate::diag::Diagnostic;
use crate::matcher::{Class, SignatureV, is_target_shaped, spec_classify};
use crate::rewrite::{ModeV, config_valid};
use crate::scope::ScopeKind;
use crate::walker::{tx_block, tx_expr, tx_exprs, tx_program, tx_stmt, tx_stmts};

verus! {

// ---------------------------------------------------------------------------
// Whether a tree holds any target-shaped call at all.
// ---------------------------------------------------------------------------

pub open spec fn expr_has_shaped(e: ExprV, sig: SignatureV) -> bool
    decreases e,
{
    match e {
        ExprV::Ident { .. } => false,
        ExprV::Num { .. } => false,
        ExprV::Bin { op, lhs, rhs, span } => expr_has_shaped(*lhs, sig) || expr_has_shaped(
            *rhs,
            sig,
        ),
        ExprV::Call { callee, args, span } => is_target_shaped(e, sig) || expr_has_shaped(
            *callee,
            sig,
        ) || exprs_have_shaped(args, sig),
    }
}

pub open spec fn exprs_have_shaped(es: Seq<ExprV>, sig: SignatureV) -> bool
    decreases es,
{
    es.len() > 0 && (expr_has_shaped(es[0], sig) || exprs_have_shaped(es.drop_first(), sig))
}

pub open spec fn stmt_has_shaped(s: StmtV, sig: SignatureV) -> bool
    decreases s,
{
    match s {
        StmtV::Expr { expr, span } => expr_has_shaped(expr, sig),
        StmtV::VarDecl { name, init, span } => expr_has_shaped(init, sig),
        StmtV::Block { block } => block_has_shaped(block, sig),
        StmtV::If { cond, cons, span } => expr_has_shaped(cond, sig) || block_has_shaped(
            cons,
            sig,
        ),
        StmtV::FnDecl { name, params, body, span } => block_has_shaped(body, sig),
    }
}

pub open spec fn block_has_shaped(b: BlockV, sig: SignatureV) -> bool
    decreases b,
{
    stmts_have_shaped(b.stmts, sig)
}

pub open spec fn stmts_have_shaped(ss: Seq<StmtV>, sig: SignatureV) -> bool
    decreases ss,
{
    ss.len() > 0 && (stmt_has_shaped(ss[0], sig) || stmts_have_shaped(ss.drop_first(), sig))
}

pub open spec fn program_has_shaped(p: ProgramV, sig: SignatureV) -> bool {
    stmts_have_shaped(p.body, sig)
}

// ---------------------------------------------------------------------------
// Idempotence on trees without target calls: the transformation returns the
// tree structurally and span-equal to its input, with no diagnostics.
// ---------------------------------------------------------------------------

pub proof fn lemma_no_targets_expr(e: ExprV, m: ModeV, sig: SignatureV, is_stmt: bool, in_fn: bool, depth: nat)
    requires
        !expr_has_shaped(e, sig),
    ensures
        tx_expr(e, m, sig, is_stmt, in_fn, depth) == (e, Seq::<Diagnostic>::empty()),
    decreases e,
{
    match e {
        ExprV::Ident { .. } => {
            assert(tx_expr(e, m, sig, is_stmt, in_fn, depth).1 =~= Seq::<Diagnostic>::empty());
        },
        ExprV::Num { .. } => {
            assert(tx_expr(e, m, sig, is_stmt, in_fn, depth).1 =~= Seq::<Diagnostic>::empty());
        },
        ExprV::Bin { op, lhs, rhs, span } => {
            lemma_no_targets_expr(*lhs, m, sig, false, in_fn, depth);
            lemma_no_targets_expr(*rhs, m, sig, false, in_fn, depth);
            assert(tx_expr(e, m, sig, is_stmt, in_fn, depth).0 =~~= e);
            assert(tx_expr(e, m, sig, is_stmt, in_fn, depth).1 =~= Seq::<Diagnostic>::empty());
        },
        ExprV::Call { callee, args, span } => {
            lemma_no_targets_expr(*callee, m, sig, false, in_fn, depth);
            lemma_no_targets_exprs(args, m, sig, in_fn, depth);
            let e2 = ExprV::Call {
                callee: Box::new(tx_expr(*callee, m, sig, false, in_fn, depth).0),
                args: tx_exprs(args, m, sig, in_fn, depth).0,
                span,
            };
            assert(e2 =~~= e);
            assert(spec_classify(e2, sig, is_stmt, in_fn) is NotTarget);
            assert(tx_expr(e, m, sig, is_stmt, in_fn, depth).0 =~~= e);
            assert(tx_expr(e, m, sig, is_stmt, in_fn, depth).1 =~= Seq::<Diagnostic>::empty());
        },
    }
}

pub proof fn lemma_no_targets_exprs(es: Seq<ExprV>, m: ModeV, sig: SignatureV, in_fn: bool, depth: nat)
    requires
        !exprs_have_shaped(es, sig),
    ensures
        tx_exprs(es, m, sig, in_fn, depth) == (es, Seq::<Diagnostic>::empty()),
    decreases es,
{
    if es.len() == 0 {
        assert(tx_exprs(es, m, sig, in_fn, depth).0 =~= es);
    } else {
        lemma_no_targets_expr(es[0], m, sig, false, in_fn, depth);
        lemma_no_targets_exprs(es.drop_first(), m, sig, in_fn, depth);
        assert(tx_exprs(es, m, sig, in_fn, depth).0 =~~= es);
        assert(tx_exprs(es, m, sig, in_fn, depth).1 =~= Seq::<Diagnostic>::empty());
    }
}

pub proof fn lemma_no_targets_stmt(s: StmtV, m: ModeV, sig: SignatureV, in_fn: bool, depth: nat)
    requires
        !stmt_has_shaped(s, sig),
    ensures
        tx_stmt(s, m, sig, in_fn, depth) == (s, Seq::<Diagnostic>::empty()),
    decreases s,
{
    match s {
        StmtV::Expr { expr, span } => {
            lemma_no_targets_expr(expr, m, sig, true, in_fn, depth);
            assert(tx_stmt(s, m, sig, in_fn, depth).0 =~~= s);
        },
        StmtV::VarDecl { name, init, span } => {
            lemma_no_targets_expr(init, m, sig, false, in_fn, depth);
            assert(tx_stmt(s, m, sig, in_fn, depth).0 =~~= s);
        },
        StmtV::Block { block } => {
            lemma_no_targets_block(block, m, sig, ScopeKind::Block, in_fn, depth);
            assert(tx_stmt(s, m, sig, in_fn, depth).0 =~~= s);
        },
        StmtV::If { cond, cons, span } => {
            lemma_no_targets_expr(cond, m, sig, false, in_fn, depth);
            lemma_no_targets_block(cons, m, sig, ScopeKind::Block, in_fn, depth);
            assert(tx_stmt(s, m, sig, in_fn, depth).0 =~~= s);
            assert(tx_stmt(s, m, sig, in_fn, depth).1 =~= Seq::<Diagnostic>::empty());
        },
        StmtV::FnDecl { name, params, body, span } => {
            lemma_no_targets_block(body, m, sig, ScopeKind::Function, in_fn, depth);
            assert(tx_stmt(s, m, sig, in_fn, depth).0 =~~= s);
        },
    }
}

pub proof fn lemma_no_targets_block(b: BlockV, m: ModeV, sig: SignatureV, kind: ScopeKind, in_fn: bool, depth: nat)
    requires
        !block_has_shaped(b, sig),
    ensures
        tx_block(b, m, sig, kind, in_fn, depth) == (b, Seq::<Diagnostic>::empty()),
    decreases b,
{
    lemma_no_targets_stmts(b.stmts, m, sig, in_fn || kind == ScopeKind::Function, depth + 1);
    assert(tx_block(b, m, sig, kind, in_fn, depth).0 =~~= b);
}

pub proof fn lemma_no_targets_stmts(ss: Seq<StmtV>, m: ModeV, sig: SignatureV, in_fn: bool, depth: nat)
    requires
        !stmts_have_shaped(ss, sig),
    ensures
        tx_stmts(ss, m, sig, in_fn, depth) == (ss, Seq::<Diagnostic>::empty()),
    decreases ss,
{
    if ss.len() == 0 {
        assert(tx_stmts(ss, m, sig, in_fn, depth).0 =~= ss);
    } else {
        lemma_no_targets_stmt(ss[0], m, sig, in_fn, depth);
        lemma_no_targets_stmts(ss.drop_first(), m, sig, in_fn, depth);
        assert(tx_stmts(ss, m, sig, in_fn, depth).0 =~~= ss);
        assert(tx_stmts(ss, m, sig, in_fn, depth).1 =~= Seq::<Diagnostic>::empty());
    }
}

/// A tree holding no target-shaped call comes back structurally and
/// span-equal, with an empty diagnostic list.
pub proof fn lemma_no_targets_program(p: ProgramV, m: ModeV, sig: SignatureV)
    requires
        !program_has_shaped(p, sig),
    ensures
        tx_program(p, m, sig) == (p, Seq::<Diagnostic>::empty()),
{
    lemma_no_targets_stmts(p.body, m, sig, false, 0);
    assert(tx_program(p, m, sig).0 =~~= p);
}

// ---------------------------------------------------------------------------
// Single-pass completeness: no call the matcher would classify as a valid
// target remains anywhere in the output tree.
// ---------------------------------------------------------------------------

pub open spec fn expr_no_valid(e: ExprV, sig: SignatureV, is_stmt: bool, in_fn: bool) -> bool
    decreases e,
{
    match e {
        ExprV::Ident { .. } => true,
        ExprV::Num { .. } => true,
        ExprV::Bin { op, lhs, rhs, span } => expr_no_valid(*lhs, sig, false, in_fn)
            && expr_no_valid(*rhs, sig, false, in_fn),
        ExprV::Call { callee, args, span } => !(spec_classify(e, sig, is_stmt, in_fn)
            is TargetValid) && expr_no_valid(*callee, sig, false, in_fn) && exprs_no_valid(
            args,
            sig,
            in_fn,
        ),
    }
}

pub open spec fn exprs_no_valid(es: Seq<ExprV>, sig: SignatureV, in_fn: bool) -> bool
    decreases es,
{
    es.len() == 0 || (expr_no_valid(es[0], sig, false, in_fn) && exprs_no_valid(
        es.drop_first(),
        sig,
        in_fn,
    ))
}

pub open spec fn stmt_no_valid(s: StmtV, sig: SignatureV, in_fn: bool) -> bool
    decreases s,
{
    match s {
        StmtV::Expr { expr, span } => expr_no_valid(expr, sig, true, in_fn),
        StmtV::VarDecl { name, init, span } => expr_no_valid(init, sig, false, in_fn),
        StmtV::Block { block } => stmts_no_valid(block.stmts, sig, in_fn),
        StmtV::If { cond, cons, span } => expr_no_valid(cond, sig, false, in_fn)
            && stmts_no_valid(cons.stmts, sig, in_fn),
        StmtV::FnDecl { name, params, body, span } => stmts_no_valid(body.stmts, sig, true),
    }
}

pub open spec fn stmts_no_valid(ss: Seq<StmtV>, sig: SignatureV, in_fn: bool) -> bool
    decreases ss,
{
    ss.len() == 0 || (stmt_no_valid(ss[0], sig, in_fn) && stmts_no_valid(
        ss.drop_first(),
        sig,
        in_fn,
    ))
}

pub open spec fn program_no_valid(p: ProgramV, sig: SignatureV) -> bool {
    stmts_no_valid(p.body, sig, false)
}

pub proof fn lemma_single_pass_expr(e: ExprV, m: ModeV, sig: SignatureV, is_stmt: bool, in_fn: bool, depth: nat)
    requires
        config_valid(m, sig),
    ensures
        expr_no_valid(tx_expr(e, m, sig, is_stmt, in_fn, depth).0, sig, is_stmt, in_fn),
    decreases e,
{
    match e {
        ExprV::Ident { .. } => {},
        ExprV::Num { .. } => {},
        ExprV::Bin { op, lhs, rhs, span } => {
            lemma_single_pass_expr(*lhs, m, sig, false, in_fn, depth);
            lemma_single_pass_expr(*rhs, m, sig, false, in_fn, depth);
        },
        ExprV::Call { callee, args, span } => {
            lemma_single_pass_expr(*callee, m, sig, false, in_fn, depth);
            lemma_single_pass_exprs(args, m, sig, in_fn, depth);
            let c = tx_expr(*callee, m, sig, false, in_fn, depth);
            let a = tx_exprs(args, m, sig, in_fn, depth);
            let e2 = ExprV::Call { callee: Box::new(c.0), args: a.0, span };
            let cls = spec_classify(e2, sig, is_stmt, in_fn);
            if cls is TargetValid {
                reveal_with_fuel(expr_no_valid, 3);
                reveal_with_fuel(exprs_no_valid, 2);
                let r = crate::rewrite::spec_rewrite(e2, m, depth);
                match m {
                    ModeV::Direct { helper } => {
                        assert(!(spec_classify(r, sig, is_stmt, in_fn) is TargetValid));
                        assert(expr_no_valid(r, sig, is_stmt, in_fn));
                    },
                    ModeV::Scoped { helper } => {
                        let r_args = r->Call_args;
                        assert(r_args.drop_first() =~~= a.0);
                        assert(r_args[0] matches ExprV::Num { .. });
                        assert(!(spec_classify(r, sig, is_stmt, in_fn) is TargetValid));
                        assert(expr_no_valid(r, sig, is_stmt, in_fn));
                    },
                }
            } else {
                assert(expr_no_valid(e2, sig, is_stmt, in_fn));
            }
        },
    }
}

pub proof fn lemma_single_pass_exprs(es: Seq<ExprV>, m: ModeV, sig: SignatureV, in_fn: bool, depth: nat)
    requires
        config_valid(m, sig),
    ensures
        exprs_no_valid(tx_exprs(es, m, sig, in_fn, depth).0, sig, in_fn),
        tx_exprs(es, m, sig, in_fn, depth).0.len() == es.len(),
    decreases es,
{
    if es.len() > 0 {
        lemma_single_pass_expr(es[0], m, sig, false, in_fn, depth);
        lemma_single_pass_exprs(es.drop_first(), m, sig, in_fn, depth);
        let h = tx_expr(es[0], m, sig, false, in_fn, depth);
        let t = tx_exprs(es.drop_first(), m, sig, in_fn, depth);
        assert((seq![h.0] + t.0).drop_first() =~~= t.0);
    }
}

pub proof fn lemma_single_pass_stmt(s: StmtV, m: ModeV, sig: SignatureV, in_fn: bool, depth: nat)
    requires
        config_valid(m, sig),
    ensures
        stmt_no_valid(tx_stmt(s, m, sig, in_fn, depth).0, sig, in_fn),
    decreases s,
{
    match s {
        StmtV::Expr { expr, span } => {
            lemma_single_pass_expr(expr, m, sig, true, in_fn, depth);
        },
        StmtV::VarDecl { name, init, span } => {
            lemma_single_pass_expr(init, m, sig, false, in_fn, depth);
        },
        StmtV::Block { block } => {
            lemma_single_pass_stmts(block.stmts, m, sig, in_fn, depth + 1);
        },
        StmtV::If { cond, cons, span } => {
            lemma_single_pass_expr(cond, m, sig, false, in_fn, depth);
            lemma_single_pass_stmts(cons.stmts, m, sig, in_fn, depth + 1);
        },
        StmtV::FnDecl { name, params, body, span } => {
            lemma_single_pass_stmts(body.stmts, m, sig, true, depth + 1);
        },
    }
}

pub proof fn lemma_single_pass_stmts(ss: Seq<StmtV>, m: ModeV, sig: SignatureV, in_fn: bool, depth: nat)
    requires
        config_valid(m, sig),
    ensures
        stmts_no_valid(tx_stmts(ss, m, sig, in_fn, depth).0, sig, in_fn),
    decreases ss,
{
    if ss.len() > 0 {
        lemma_single_pass_stmt(ss[0], m, sig, in_fn, depth);
        lemma_single_pass_stmts(ss.drop_first(), m, sig, in_fn, depth);
        let h = tx_stmt(ss[0], m, sig, in_fn, depth);
        let t = tx_stmts(ss.drop_first(), m, sig, in_fn, depth);
        assert((seq![h.0] + t.0).drop_first() =~~= t.0);
    }
}

/// After one pass under a lock-step configuration, no valid target call
/// remains anywhere in the output tree.
pub proof fn lemma_single_pass_program(p: ProgramV, m: ModeV, sig: SignatureV)
    requires
        config_valid(m, sig),
    ensures
        program_no_valid(tx_program(p, m, sig).0, sig),
{
    lemma_single_pass_stmts(p.body, m, sig, false, 0);
}

// ---------------------------------------------------------------------------
// Invalid-context reporting: a misplaced target-shaped call holding no other
// target-shaped call yields exactly one diagnostic, at its own span, and
// stands in the output unchanged.
// ---------------------------------------------------------------------------

pub proof fn lemma_invalid_context_reported(e: ExprV, m: ModeV, sig: SignatureV, is_stmt: bool, in_fn: bool, depth: nat)
    requires
        spec_classify(e, sig, is_stmt, in_fn) is TargetInvalidContext,
        e matches ExprV::Call { callee, args, .. } ==> !expr_has_shaped(*callee, sig)
            && !exprs_have_shaped(args, sig),
    ensures
        tx_expr(e, m, sig, is_stmt, in_fn, depth) == (
            e,
            seq![crate::diag::invalid_context_diag(e.span())],
        ),
{
    let callee = e->Call_callee;
    let args = e->Call_args;
    let span = e->Call_span;
    lemma_no_targets_expr(*callee, m, sig, false, in_fn, depth);
    lemma_no_targets_exprs(args, m, sig, in_fn, depth);
    let e2 = ExprV::Call {
        callee: Box::new(tx_expr(*callee, m, sig, false, in_fn, depth).0),
        args: tx_exprs(args, m, sig, in_fn, depth).0,
        span,
    };
    assert(e2 =~~= e);
    assert(tx_expr(e, m, sig, is_stmt, in_fn, depth).1 =~= seq![
        crate::diag::invalid_context_diag(e.span()),
    ]);
}

// ---------------------------------------------------------------------------
// Span preservation: on a well-formed tree the pass keeps every node's span
// derived from the original's; siblings in the output neither overlap nor
// change left-to-right source order.
// ---------------------------------------------------------------------------

pub proof fn lemma_wf_span(e: ExprV)
    requires
        e.wf(),
    ensures
        e.span().wf(),
{
}

pub proof fn lemma_spans_expr(e: ExprV, m: ModeV, sig: SignatureV, is_stmt: bool, in_fn: bool, depth: nat)
    requires
        e.wf(),
    ensures
        tx_expr(e, m, sig, is_stmt, in_fn, depth).0.wf(),
        tx_expr(e, m, sig, is_stmt, in_fn, depth).0.span() == e.span(),
    decreases e,
{
    match e {
        ExprV::Ident { .. } => {},
        ExprV::Num { .. } => {},
        ExprV::Bin { op, lhs, rhs, span } => {
            lemma_spans_expr(*lhs, m, sig, false, in_fn, depth);
            lemma_spans_expr(*rhs, m, sig, false, in_fn, depth);
        },
        ExprV::Call { callee, args, span } => {
            lemma_spans_expr(*callee, m, sig, false, in_fn, depth);
            assert(forall|i: int| 0 <= i < args.len() ==> (#[trigger] args[i]).wf());
            lemma_spans_exprs(args, m, sig, in_fn, depth);
            let c = tx_expr(*callee, m, sig, false, in_fn, depth);
            let a = tx_exprs(args, m, sig, in_fn, depth);
            let e2 = ExprV::Call { callee: Box::new(c.0), args: a.0, span };
            assert(e2.wf());
            let cls = spec_classify(e2, sig, is_stmt, in_fn);
            if cls is TargetValid {
                reveal_with_fuel(ExprV::wf, 3);
                lemma_wf_span(c.0);
                let r = crate::rewrite::spec_rewrite(e2, m, depth);
                let cs = c.0.span();
                match m {
                    ModeV::Direct { helper } => {
                        assert(r.wf());
                    },
                    ModeV::Scoped { helper } => {
                        let r_args = r->Call_args;
                        assert(r_args[0].span() == (crate::ast::Span { lo: cs.hi, hi: cs.hi }));
                        assert(forall|i: int|
                            1 <= i < r_args.len() ==> r_args[i] == a.0[i - 1]);
                        assert(r.wf());
                    },
                }
            }
        },
    }
}

pub proof fn lemma_spans_exprs(es: Seq<ExprV>, m: ModeV, sig: SignatureV, in_fn: bool, depth: nat)
    requires
        forall|i: int| 0 <= i < es.len() ==> (#[trigger] es[i]).wf(),
    ensures
        tx_exprs(es, m, sig, in_fn, depth).0.len() == es.len(),
        forall|i: int|
            0 <= i < es.len() ==> (#[trigger] tx_exprs(es, m, sig, in_fn, depth).0[i]).wf()
                && tx_exprs(es, m, sig, in_fn, depth).0[i].span() == es[i].span(),
    decreases es,
{
    if es.len() > 0 {
        lemma_spans_expr(es[0], m, sig, false, in_fn, depth);
        assert(forall|i: int|
            0 <= i < es.drop_first().len() ==> (#[trigger] es.drop_first()[i]).wf());
        lemma_spans_exprs(es.drop_first(), m, sig, in_fn, depth);
        let h = tx_expr(es[0], m, sig, false, in_fn, depth);
        let t = tx_exprs(es.drop_first(), m, sig, in_fn, depth);
        assert(forall|i: int|
            1 <= i < es.len() ==> (seq![h.0] + t.0)[i] == t.0[i - 1] && es[i] == es.drop_first()[i
                - 1]);
    }
}

pub proof fn lemma_spans_stmt(s: StmtV, m: ModeV, sig: SignatureV, in_fn: bool, depth: nat)
    requires
        s.wf(),
    ensures
        tx_stmt(s, m, sig, in_fn, depth).0.wf(),
        tx_stmt(s, m, sig, in_fn, depth).0.span() == s.span(),
    decreases s,
{
    match s {
        StmtV::Expr { expr, span } => {
            lemma_spans_expr(expr, m, sig, true, in_fn, depth);
        },
        StmtV::VarDecl { name, init, span } => {
            lemma_spans_expr(init, m, sig, false, in_fn, depth);
        },
        StmtV::Block { block } => {
            lemma_spans_block(block, m, sig, ScopeKind::Block, in_fn, depth);
        },
        StmtV::If { cond, cons, span } => {
            lemma_spans_expr(cond, m, sig, false, in_fn, depth);
            lemma_spans_block(cons, m, sig, ScopeKind::Block, in_fn, depth);
        },
        StmtV::FnDecl { name, params, body, span } => {
            lemma_spans_block(body, m, sig, ScopeKind::Function, in_fn, depth);
        },
    }
}

pub proof fn lemma_spans_block(b: BlockV, m: ModeV, sig: SignatureV, kind: ScopeKind, in_fn: bool, depth: nat)
    requires
        b.wf(),
    ensures
        tx_block(b, m, sig, kind, in_fn, depth).0.wf(),
        tx_block(b, m, sig, kind, in_fn, depth).0.span == b.span,
    decreases b,
{
    lemma_spans_stmts(b.stmts, m, sig, in_fn || kind == ScopeKind::Function, depth + 1);
}

pub proof fn lemma_spans_stmts(ss: Seq<StmtV>, m: ModeV, sig: SignatureV, in_fn: bool, depth: nat)
    requires
        forall|i: int| 0 <= i < ss.len() ==> (#[trigger] ss[i]).wf(),
    ensures
        tx_stmts(ss, m, sig, in_fn, depth).0.len() == ss.len(),
        forall|i: int|
            0 <= i < ss.len() ==> (#[trigger] tx_stmts(ss, m, sig, in_fn, depth).0[i]).wf()
                && tx_stmts(ss, m, sig, in_fn, depth).0[i].span() == ss[i].span(),
    decreases ss,
{
    if ss.len() > 0 {
        lemma_spans_stmt(ss[0], m, sig, in_fn, depth);
        assert(forall|i: int|
            0 <= i < ss.drop_first().len() ==> (#[trigger] ss.drop_first()[i]).wf());
        lemma_spans_stmts(ss.drop_first(), m, sig, in_fn, depth);
        let h = tx_stmt(ss[0], m, sig, in_fn, depth);
        let t = tx_stmts(ss.drop_first(), m, sig, in_fn, depth);
        assert(forall|i: int|
            1 <= i < ss.len() ==> (seq![h.0] + t.0)[i] == t.0[i - 1] && ss[i] == ss.drop_first()[i
                - 1]);
    }
}

/// On a well-formed input tree, the output tree is well formed with the
/// same outermost span: every sibling pair keeps its original source order
/// without overlap, and every node's span stays inside its parent's.
pub proof fn lemma_spans_program(p: ProgramV, m: ModeV, sig: SignatureV)
    requires
        p.wf(),
    ensures
        tx_program(p, m, sig).0.wf(),
        tx_program(p, m, sig).0.span == p.span,
{
    assert(forall|i: int| 0 <= i < p.body.len() ==> (#[trigger] p.body[i]).wf());
    lemma_spans_stmts(p.body, m, sig, false, 0);
}

} // verus!
