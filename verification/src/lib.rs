mod engine;
mod interp;
mod laws;
mod response;
mod sink;

pub use engine::Sandbox;
pub use interp::expr_diag;
pub use interp::parses_as_expr;
pub use interp::parses_as_stmts;
pub use interp::stmts_diag;
pub use laws::lemma_failed_diag_deterministic;
pub use laws::lemma_failure_preserves_output;
pub use response::Evalresult;
pub use response::Stdout;
pub use response::Value;
pub use response::assemble_eval;
pub use response::assemble_exec;
pub use sink::Sink;
