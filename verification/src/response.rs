use vstd::prelude::*;

use crate::sink::Sink;

verus! {

/// The description of a value computed by evaluating a single expression:
/// its canonical textual representation and the display name of its
/// runtime type.
pub struct Value {
    /// The canonical textual representation of the value (its "repr").
    pub value: String,
    /// The display name of the value's runtime type.
    pub datatype: String,
}

/// The console text captured during one call: everything the interpreted
/// program wrote to standard output and to standard error, plus — on
/// failure — the formatted diagnostic appended to the error stream.
pub struct Stdout {
    pub out: String,
    pub err: String,
}

/// The response to an evaluation call: the captured console text, and the
/// computed value's description if and only if the call succeeded.
pub struct Evalresult {
    pub stdout: Stdout,
    pub value: Option<Value>,
}

/// Builds the evaluation response from the text captured during the run
/// and the run's outcome. The captured standard output is passed through
/// verbatim; on success the captured standard error is passed through
/// verbatim and the value description is attached; on failure no value is
/// attached and the diagnostic is appended to the captured standard error,
/// so that any output produced before the failure is preserved.
pub fn assemble_eval(out: String, err: String, outcome: Result<Value, String>) -> (r: Evalresult)
    ensures
        r.stdout.out == out,
        outcome is Ok ==> r.stdout.err == err && r.value == Some(outcome->Ok_0),
        outcome is Err ==> r.value is None && r.stdout.err@ == err@ + outcome->Err_0@,
{
    match outcome {
        Ok(v) => Evalresult {
            stdout: Stdout { out, err },
            value: Some(v),
        },
        Err(diag) => {
            let mut err_sink = Sink::new();
            err_sink.write(err.as_str());
            err_sink.write(diag.as_str());
            proof {
                assert(err_sink@ =~= err@ + diag@);
            }
            Evalresult {
                stdout: Stdout { out, err: err_sink.into_string() },
                value: None,
            }
        },
    }
}

/// Builds the execution response from the text captured during the run and
/// the run's outcome. Execution never reports a value: on success both
/// captured streams are passed through verbatim; on failure the diagnostic
/// is appended to the captured standard error, preserving any output
/// produced before the failure.
pub fn assemble_exec(out: String, err: String, outcome: Result<(), String>) -> (r: Stdout)
    ensures
        r.out == out,
        outcome is Ok ==> r.err == err,
        outcome is Err ==> r.err@ == err@ + outcome->Err_0@,
{
    match outcome {
        Ok(()) => Stdout { out, err },
        Err(diag) => {
            let mut err_sink = Sink::new();
            err_sink.write(err.as_str());
            err_sink.write(diag.as_str());
            proof {
                assert(err_sink@ =~= err@ + diag@);
            }
            Stdout { out, err: err_sink.into_string() }
        },
    }
}

} // verus!
