use vstd::prelude::*;

use crate::interp::Captured;
use crate::interp::compile_expr;
use crate::interp::compile_stmts;
use crate::interp::expr_diag;
use crate::interp::new_interpreter;
use crate::interp::new_scope;
use crate::interp::parses_as_expr;
use crate::interp::parses_as_stmts;
use crate::interp::run_expr;
use crate::interp::run_stmts;
use crate::interp::stmts_diag;
use crate::response::Evalresult;
use crate::response::Stdout;
use crate::response::assemble_eval;
use crate::response::assemble_exec;

verus! {

/// One execution session: a persistent interpreter and a persistent variable
/// scope. Every call against the same sandbox runs against the same scope, so
/// assignments and imports made by one call are visible to every later call.
/// The host must not run two calls against one sandbox at the same time.
pub struct Sandbox {
    interp: rustpython_vm::Interpreter,
    scope: rustpython_vm::scope::Scope,
}

impl Sandbox {
    /// Creates the session: an interpreter, and a fresh scope seeded with the
    /// interpreter's builtins. The session lives as long as the sandbox; it
    /// is never reinitialized by later calls.
    ///
    /// Only the interpreter's own built-in modules are loaded; the optional
    /// standard-library module set is not. A program that imports one of its
    /// modules fails at runtime with the usual import diagnostic.
    pub fn new() -> Sandbox {
        let interp = new_interpreter();
        let scope = new_scope(&interp);
        Sandbox { interp, scope }
    }

    /// Compiles `source` as exactly one expression and runs it against the
    /// session's scope, capturing everything the program writes to the
    /// console in sinks created for this call alone.
    ///
    /// When the source is rejected by the compiler nothing is run, so the
    /// response carries no captured output at all: its standard-output text
    /// is empty, its standard-error text is exactly the interpreter's syntax
    /// diagnostic (never empty), and no value is attached. A value is
    /// attached exactly when the source compiled, the run raised nothing, and
    /// the result's description succeeded; the value then carries the
    /// result's canonical representation and its runtime type name.
    ///
    /// A failed call is always detectable: whenever no value is attached, a
    /// diagnostic was appended to the reported standard-error text, so that
    /// text is non-empty.
    pub fn eval(&self, source: &str) -> (r: Evalresult)
        ensures
            !parses_as_expr(source@) ==> r.stdout.out@ == Seq::<char>::empty(),
            !parses_as_expr(source@) ==> r.stdout.err@ == expr_diag(source@),
            !parses_as_expr(source@) ==> r.stdout.err@.len() > 0 && r.value is None,
            r.value is Some ==> parses_as_expr(source@),
            r.value is None ==> r.stdout.err@.len() > 0,
    {
        match compile_expr(&self.interp, source) {
            Err(diag) => {
                let r = assemble_eval(String::new(), String::new(), Err(diag));
                proof {
                    assert(r.stdout.err@ =~= expr_diag(source@));
                }
                r
            },
            Ok(code) => {
                let cap = run_expr(&self.interp, &self.scope, &code);
                assemble_eval(cap.out, cap.err, cap.outcome)
            },
        }
    }

    /// Compiles `source` as a statement sequence and runs it against the
    /// session's scope, capturing everything the program writes to the
    /// console in sinks created for this call alone. Execution reports only
    /// effects, never a value.
    ///
    /// When the source is rejected by the compiler nothing is run, so the
    /// response carries no captured output at all: its standard-output text
    /// is empty and its standard-error text is exactly the interpreter's
    /// syntax diagnostic (never empty).
    pub fn exec(&self, source: &str) -> (r: Stdout)
        ensures
            !parses_as_stmts(source@) ==> r.out@ == Seq::<char>::empty(),
            !parses_as_stmts(source@) ==> r.err@ == stmts_diag(source@),
            !parses_as_stmts(source@) ==> r.err@.len() > 0,
    {
        match compile_stmts(&self.interp, source) {
            Err(diag) => {
                let r = assemble_exec(String::new(), String::new(), Err(diag));
                proof {
                    assert(r.err@ =~= stmts_diag(source@));
                }
                r
            },
            Ok(code) => {
                let cap: Captured<()> = run_stmts(&self.interp, &self.scope, &code);
                assemble_exec(cap.out, cap.err, cap.outcome)
            },
        }
    }
}

} // verus!
