//! A scope-aware, source-to-source transformation core for a
//! JavaScript-family syntax tree: it walks an owned tree once, depth-first
//! and children-first, rewrites every call matching a configured target
//! signature under the selected compilation mode, reports every misplaced
//! target-shaped call as a diagnostic, and keeps the tree's span order
//! intact for the printer downstream. Parsing and printing belong to the
//! callers; the core takes a tree and hands a tree back.

use vstd::prelude::*;

pub mod ast;
pub mod diag;
pub mod laws;
pub mod matcher;
pub mod rewrite;
pub mod scope;
pub mod walker;

verus! {

/// What makes a whole compilation fail with no output tree.
#[derive(Clone, Copy, PartialEq, Eq, Structural, Debug)]
pub enum Error {
    /// The matcher's and the rewriter's tables disagree: the helper the mode
    /// would call is itself the target name, so one pass could leave fresh
    /// target calls behind. No partial tree is returned.
    InternalInconsistency,
}

/// The sole transformation entry point: one depth-first pass over the tree,
/// rewriting every valid target call under the mode's strategy and
/// recording a diagnostic for every misplaced one. Succeeds exactly when
/// the mode and the signature are in lock-step; diagnostics never make it
/// fail.
pub fn transform(
    tree: ast::Program,
    mode: &rewrite::CompilationMode,
    signature: &matcher::TargetSignature,
) -> (r: Result<(ast::Program, Vec<diag::Diagnostic>), Error>)
    ensures
        r is Ok <==> rewrite::config_valid(mode@, signature@),
        r matches Ok(out) ==> out.0@ == walker::tx_program(tree@, mode@, signature@).0,
        r matches Ok(out) ==> out.1@ == walker::tx_program(tree@, mode@, signature@).1,
        r is Err ==> r == Err::<(ast::Program, Vec<diag::Diagnostic>), Error>(
            Error::InternalInconsistency,
        ),
{
    if !rewrite::check_config(mode, signature) {
        return Err(Error::InternalInconsistency);
    }
    Ok(walker::walk_program(tree, mode, signature))
}

/// The compiler: a target-call signature and a compilation mode, fixed at
/// construction, applied to whole programs.
#[derive(Debug)]
pub struct Compiler {
    pub mode: rewrite::CompilationMode,
    pub signature: matcher::TargetSignature,
}

impl Compiler {
    pub fn new(mode: rewrite::CompilationMode, signature: matcher::TargetSignature) -> (c:
        Compiler)
        ensures
            c.mode == mode,
            c.signature == signature,
    {
        Compiler { mode, signature }
    }

    /// Compile one program: transform it under this compiler's mode and
    /// signature.
    pub fn compile_program(&self, program: ast::Program) -> (r: Result<
        (ast::Program, Vec<diag::Diagnostic>),
        Error,
    >)
        ensures
            r is Ok <==> rewrite::config_valid(self.mode@, self.signature@),
            r matches Ok(out) ==> out.0@ == walker::tx_program(
                program@,
                self.mode@,
                self.signature@,
            ).0,
            r matches Ok(out) ==> out.1@ == walker::tx_program(
                program@,
                self.mode@,
                self.signature@,
            ).1,
            r is Err ==> r == Err::<(ast::Program, Vec<diag::Diagnostic>), Error>(
                Error::InternalInconsistency,
            ),
    {
        transform(program, &self.mode, &self.signature)
    }
}

} // verus!
