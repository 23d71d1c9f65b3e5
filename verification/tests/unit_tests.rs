use sandbox::Sink;
use sandbox::Value;
use sandbox::assemble_eval;
use sandbox::assemble_exec;

#[test]
fn sink_starts_empty() {
    let s = Sink::new();
    assert_eq!(s.contents(), "");
}

#[test]
fn sink_appends_verbatim_in_order() {
    let mut s = Sink::new();
    s.write("a\n");
    s.write("");
    s.write("bc");
    assert_eq!(s.contents(), "a\nbc");
    assert_eq!(s.into_string(), "a\nbc");
}

#[test]
fn sink_flush_changes_nothing() {
    let mut s = Sink::new();
    s.write("x");
    s.flush();
    assert_eq!(s.contents(), "x");
}

#[test]
fn assemble_eval_success_attaches_value() {
    let v = Value { value: String::from("3"), datatype: String::from("int") };
    let r = assemble_eval(String::from("out"), String::from("err"), Ok(v));
    assert_eq!(r.stdout.out, "out");
    assert_eq!(r.stdout.err, "err");
    let v = r.value.expect("success must attach the value");
    assert_eq!(v.value, "3");
    assert_eq!(v.datatype, "int");
}

#[test]
fn assemble_eval_failure_appends_diagnostic() {
    let r = assemble_eval(
        String::from("partial"),
        String::from("warned"),
        Err(String::from("Boom")),
    );
    assert_eq!(r.stdout.out, "partial");
    assert_eq!(r.stdout.err, "warnedBoom");
    assert!(r.value.is_none());
}

#[test]
fn assemble_exec_success_passes_streams_through() {
    let r = assemble_exec(String::from("out"), String::from("err"), Ok(()));
    assert_eq!(r.out, "out");
    assert_eq!(r.err, "err");
}

#[test]
fn assemble_exec_failure_appends_diagnostic() {
    let r = assemble_exec(String::from("o"), String::from("e"), Err(String::from("D")));
    assert_eq!(r.out, "o");
    assert_eq!(r.err, "eD");
}
