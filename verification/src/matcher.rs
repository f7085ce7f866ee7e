use vstd::prelude::*;
use crate::ast::{Expr, ExprV};

verus! {

/// The descriptor of the calls subject to rewriting: the callee name, the
/// argument count, and the structural positions the call must occupy.
/// Fixed at compiler construction time; immutable during a run.
#[derive(Debug)]
pub struct TargetSignature {
    /// Name the callee identifier must carry.
    pub name: String,
    /// Number of arguments the call must pass.
    pub arity: usize,
    /// The call must stand as a statement of its own, not inside another
    /// expression.
    pub require_stmt: bool,
    /// The call must sit inside some function body, not a bare block.
    pub require_function: bool,
}

/// The model of a signature: the name as a character sequence.
pub struct SignatureV {
    pub name: Seq<char>,
    pub arity: nat,
    pub require_stmt: bool,
    pub require_function: bool,
}

impl View for TargetSignature {
    type V = SignatureV;

    open spec fn view(&self) -> SignatureV {
        SignatureV {
            name: self.name@,
            arity: self.arity as nat,
            require_stmt: self.require_stmt,
            require_function: self.require_function,
        }
    }
}

/// How the pattern matcher judges one call expression.
#[derive(Clone, Copy, PartialEq, Eq, Structural, Debug)]
pub enum Class {
    /// The callee or arity does not match the signature: leave the call be.
    NotTarget,
    /// The signature matches and the position satisfies its constraints:
    /// the call is rewritten.
    TargetValid,
    /// The signature matches but the position does not: reported, never
    /// silently skipped.
    TargetInvalidContext,
}

/// The call's callee and arity match the signature.
pub open spec fn is_target_shaped(e: ExprV, sig: SignatureV) -> bool {
    e matches ExprV::Call { callee, args, .. } && *callee matches ExprV::Ident { name, .. }
        && name == sig.name && args.len() == sig.arity
}

/// The position of the call satisfies the signature's structural
/// constraints. `is_stmt` says the call stands as a statement of its own;
/// `in_function` says some enclosing scope is a function body.
pub open spec fn context_ok(sig: SignatureV, is_stmt: bool, in_function: bool) -> bool {
    &&& (sig.require_stmt ==> is_stmt)
    &&& (sig.require_function ==> in_function)
}

/// The matcher's full judgement of one call expression at one position.
pub open spec fn spec_classify(e: ExprV, sig: SignatureV, is_stmt: bool, in_function: bool) -> Class {
    if !is_target_shaped(e, sig) {
        Class::NotTarget
    } else if context_ok(sig, is_stmt, in_function) {
        Class::TargetValid
    } else {
        Class::TargetInvalidContext
    }
}

/// Pure classification of one call expression; no side effects.
pub fn classify(e: &Expr, sig: &TargetSignature, is_stmt: bool, in_function: bool) -> (c: Class)
    ensures
        c == spec_classify(e@, sig@, is_stmt, in_function),
{
    match e {
        Expr::Call { callee, args, .. } => match &**callee {
            Expr::Ident { name, .. } => {
                proof {
                    reveal_with_fuel(Expr::view_spec, 2);
                    crate::ast::lemma_exprs_view(args@);
                    assert(e@ matches ExprV::Call { .. });
                    assert(callee.view_spec() matches ExprV::Ident { .. });
                }
                if *name == sig.name && args.len() == sig.arity {
                    if (sig.require_stmt && !is_stmt) || (sig.require_function && !in_function) {
                        Class::TargetInvalidContext
                    } else {
                        Class::TargetValid
                    }
                } else {
                    Class::NotTarget
                }
            },
            _ => Class::NotTarget,
        },
        _ => Class::NotTarget,
    }
}

} // verus!
