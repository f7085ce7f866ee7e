use vstd::prelude::*;
use crate::ast::{Expr, ExprV, Span};

verus! {

/// The run-level selector of the rewrite strategy for target calls. Chosen
/// once per compilation; it never changes mid-traversal. Each mode carries
/// the name of the runtime helper its replacement calls.
#[derive(Debug)]
pub enum CompilationMode {
    /// Replace the callee with the helper; the arguments stay as they are,
    /// so their evaluation order is the original call's.
    Direct { helper: String },
    /// Replace the callee with the helper and pass the lexical scope depth
    /// of the call site as a new leading argument.
    Scoped { helper: String },
}

/// The model of a mode: the helper name as a character sequence.
pub enum ModeV {
    Direct { helper: Seq<char> },
    Scoped { helper: Seq<char> },
}

impl View for CompilationMode {
    type V = ModeV;

    open spec fn view(&self) -> ModeV {
        match self {
            CompilationMode::Direct { helper } => ModeV::Direct { helper: helper@ },
            CompilationMode::Scoped { helper } => ModeV::Scoped { helper: helper@ },
        }
    }
}

impl ModeV {
    pub open spec fn helper_name(self) -> Seq<char> {
        match self {
            ModeV::Direct { helper } => helper,
            ModeV::Scoped { helper } => helper,
        }
    }
}

/// The matcher's table and the rewriter's stay in lock-step only when the
/// helper a rewrite calls cannot itself match the target signature;
/// otherwise one pass would leave fresh target calls behind.
pub open spec fn config_valid(m: ModeV, sig: crate::matcher::SignatureV) -> bool {
    m.helper_name() != sig.name
}

/// What the rewrite of a target call produces. The outer span stays the
/// original call's; the helper callee takes the original callee's span; the
/// depth literal of the scoped strategy takes the empty span at the end of
/// the callee, so sibling order and enclosure are kept. On a node that is
/// not a call the strategy has nothing to say and leaves it unchanged.
pub open spec fn spec_rewrite(e: ExprV, m: ModeV, depth: nat) -> ExprV {
    match e {
        ExprV::Call { callee, args, span } => {
            let cs = callee.span();
            match m {
                ModeV::Direct { helper } => ExprV::Call {
                    callee: Box::new(ExprV::Ident { name: helper, span: cs }),
                    args,
                    span,
                },
                ModeV::Scoped { helper } => ExprV::Call {
                    callee: Box::new(ExprV::Ident { name: helper, span: cs }),
                    args: seq![
                        ExprV::Num { value: depth as u64, span: Span { lo: cs.hi, hi: cs.hi } },
                    ] + args,
                    span,
                },
            }
        },
        _ => e,
    }
}

impl CompilationMode {
    /// The name of the runtime helper this mode's replacements call.
    pub fn helper(&self) -> (h: &String)
        ensures
            h@ == self@.helper_name(),
    {
        match self {
            CompilationMode::Direct { helper } => helper,
            CompilationMode::Scoped { helper } => helper,
        }
    }
}

/// Whether the mode's rewrite table and the signature's matcher table are in
/// lock-step.
pub fn check_config(m: &CompilationMode, sig: &crate::matcher::TargetSignature) -> (b: bool)
    ensures
        b == config_valid(m@, sig@),
{
    !(*m.helper() == sig.name)
}

/// Produce the replacement of one target call under the active mode.
pub fn rewrite(e: Expr, m: &CompilationMode, depth: usize) -> (r: Expr)
    ensures
        r@ == spec_rewrite(e@, m@, depth as nat),
{
    match e {
        Expr::Call { callee, args, span } => {
            let cs = callee.span_of();
            match m {
                CompilationMode::Direct { helper } => {
                    let r = Expr::Call {
                        callee: Box::new(Expr::Ident { name: helper.clone(), span: cs }),
                        args,
                        span,
                    };
                    proof {
                        reveal_with_fuel(Expr::view_spec, 3);
                        assert(r@ =~~= spec_rewrite(
                            ExprV::Call {
                                callee: Box::new(callee.view_spec()),
                                args: crate::ast::exprs_view(args@),
                                span,
                            },
                            m@,
                            depth as nat,
                        ));
                    }
                    r
                },
                CompilationMode::Scoped { helper } => {
                    let mut args2: Vec<Expr> = Vec::new();
                    args2.push(Expr::Num {
                        value: depth as u64,
                        span: Span { lo: cs.hi, hi: cs.hi },
                    });
                    let mut rest = args;
                    let ghost orig_rest = rest@;
                    while rest.len() > 0
                        invariant
                            args2@.len() + rest@.len() == 1 + orig_rest.len(),
                            args2@.len() >= 1,
                            args2@[0] == (Expr::Num {
                                value: depth as u64,
                                span: Span { lo: cs.hi, hi: cs.hi },
                            }),
                            forall|i: int|
                                1 <= i < args2@.len() ==> args2@[i] == orig_rest[i - 1],
                            forall|i: int|
                                0 <= i < rest@.len() ==> rest@[i] == orig_rest[
                                    args2@.len() - 1 + i
                                ],
                        decreases rest@.len(),
                    {
                        let x = rest.remove(0);
                        args2.push(x);
                    }
                    let r = Expr::Call {
                        callee: Box::new(Expr::Ident { name: helper.clone(), span: cs }),
                        args: args2,
                        span,
                    };
                    proof {
                        reveal_with_fuel(Expr::view_spec, 3);
                        crate::ast::lemma_exprs_view(args2@);
                        crate::ast::lemma_exprs_view(orig_rest);
                        assert(crate::ast::exprs_view(args2@) =~~= seq![
                            ExprV::Num { value: depth as u64, span: Span { lo: cs.hi, hi: cs.hi } },
                        ] + crate::ast::exprs_view(orig_rest));
                        assert(r@ =~~= spec_rewrite(
                            ExprV::Call {
                                callee: Box::new(callee.view_spec()),
                                args: crate::ast::exprs_view(orig_rest),
                                span,
                            },
                            m@,
                            depth as nat,
                        ));
                    }
                    r
                },
            }
        },
        other => other,
    }
}

} // verus!
