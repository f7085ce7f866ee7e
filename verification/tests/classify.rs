use saraswati::ast::{Expr, Span};
use saraswati::matcher::{classify, Class, TargetSignature};

fn sp(lo: u32, hi: u32) -> Span {
    Span { lo, hi }
}

fn target_call(name: &str, args: Vec<Expr>) -> Expr {
    Expr::Call {
        callee: Box::new(Expr::Ident { name: name.to_string(), span: sp(0, 6) }),
        args,
        span: sp(0, 10),
    }
}

fn signature(name: &str, arity: usize, require_stmt: bool, require_function: bool) -> TargetSignature {
    TargetSignature { name: name.to_string(), arity, require_stmt, require_function }
}

/// A call with the right name and arity in an allowed position is a valid
/// target.
#[test]
fn classify_valid() {
    let e = target_call("target", vec![Expr::Num { value: 1, span: sp(7, 8) }]);
    let sig = signature("target", 1, true, true);
    assert_eq!(classify(&e, &sig, true, true), Class::TargetValid);
}

/// The wrong callee name is no target.
#[test]
fn classify_wrong_name() {
    let e = target_call("other", vec![Expr::Num { value: 1, span: sp(7, 8) }]);
    let sig = signature("target", 1, false, false);
    assert_eq!(classify(&e, &sig, true, true), Class::NotTarget);
}

/// The wrong arity is no target.
#[test]
fn classify_wrong_arity() {
    let e = target_call("target", vec![]);
    let sig = signature("target", 1, false, false);
    assert_eq!(classify(&e, &sig, true, true), Class::NotTarget);
}

/// The right shape in a refused position is a misused target, never a
/// silent skip.
#[test]
fn classify_invalid_context() {
    let e = target_call("target", vec![Expr::Num { value: 1, span: sp(7, 8) }]);
    let needs_stmt = signature("target", 1, true, false);
    assert_eq!(classify(&e, &needs_stmt, false, true), Class::TargetInvalidContext);
    let needs_fn = signature("target", 1, false, true);
    assert_eq!(classify(&e, &needs_fn, true, false), Class::TargetInvalidContext);
}

/// Something other than a call is never a target.
#[test]
fn classify_non_call() {
    let e = Expr::Ident { name: "target".to_string(), span: sp(0, 6) };
    let sig = signature("target", 0, false, false);
    assert_eq!(classify(&e, &sig, true, true), Class::NotTarget);
}
