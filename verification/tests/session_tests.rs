use sandbox::Sandbox;

#[test]
fn eval_addition_reports_value_and_type() {
    let sb = Sandbox::new();
    let r = sb.eval("1 + 2");
    assert_eq!(r.stdout.out, "");
    assert_eq!(r.stdout.err, "");
    let v = r.value.expect("a value is owed for a valid expression");
    assert_eq!(v.value, "3");
    assert_eq!(v.datatype, "int");
}

#[test]
fn eval_reports_repr_not_str() {
    let sb = Sandbox::new();
    let r = sb.eval("'a'");
    let v = r.value.expect("a value is owed for a valid expression");
    assert_eq!(v.value, "'a'");
    assert_eq!(v.datatype, "str");
}

#[test]
fn exec_captures_prints_in_program_order() {
    let sb = Sandbox::new();
    let r = sb.exec("print(1); print(2)");
    assert_eq!(r.out, "1\n2\n");
    assert_eq!(r.err, "");
}

#[test]
fn eval_syntax_error_runs_nothing() {
    let sb = Sandbox::new();
    let r = sb.eval("1 +");
    assert!(r.value.is_none());
    assert_eq!(r.stdout.out, "");
    assert!(!r.stdout.err.is_empty());
    assert!(r.stdout.err.contains("SyntaxError"));
}

#[test]
fn exec_syntax_error_runs_nothing() {
    let sb = Sandbox::new();
    let r = sb.exec("def ");
    assert_eq!(r.out, "");
    assert!(!r.err.is_empty());
    assert!(r.err.contains("SyntaxError"));
}

#[test]
fn eval_rejects_statement_input() {
    let sb = Sandbox::new();
    let r = sb.eval("x = 1");
    assert!(r.value.is_none());
    assert_eq!(r.stdout.out, "");
    assert!(!r.stdout.err.is_empty());
}

#[test]
fn output_before_a_raise_is_preserved() {
    let sb = Sandbox::new();
    let r = sb.exec("print('a'); 1/0");
    assert_eq!(r.out, "a\n");
    assert!(r.err.contains("ZeroDivision"));
}

#[test]
fn eval_runtime_error_reports_diagnostic() {
    let sb = Sandbox::new();
    let r = sb.eval("1/0");
    assert!(r.value.is_none());
    assert!(r.stdout.err.contains("ZeroDivision"));
}

#[test]
fn bindings_survive_across_calls() {
    let sb = Sandbox::new();
    let first = sb.exec("x = 5");
    assert_eq!(first.out, "");
    assert_eq!(first.err, "");
    let second = sb.eval("x + 1");
    let v = second.value.expect("the binding made by exec must be visible");
    assert_eq!(v.value, "6");
    assert_eq!(v.datatype, "int");
}

#[test]
fn calls_never_see_each_others_output() {
    let sb = Sandbox::new();
    let first = sb.exec("print('first')");
    assert_eq!(first.out, "first\n");
    let second = sb.exec("print('second')");
    assert_eq!(second.out, "second\n");
    assert_eq!(second.err, "");
}

#[test]
fn failure_formatting_is_stable() {
    let sb = Sandbox::new();
    let first = sb.exec("1/0");
    let second = sb.exec("1/0");
    assert!(!first.err.is_empty());
    assert_eq!(first.err, second.err);
}

#[test]
fn syntax_diagnostics_are_stable() {
    let sb = Sandbox::new();
    let first = sb.eval("1 +");
    let second = sb.eval("1 +");
    assert!(!first.stdout.err.is_empty());
    assert_eq!(first.stdout.err, second.stdout.err);
}

#[test]
fn stderr_is_captured_separately() {
    let sb = Sandbox::new();
    let r = sb.exec("import sys\nsys.stderr.write('boom')");
    assert_eq!(r.out, "");
    assert_eq!(r.err, "boom");
}

#[test]
fn writes_are_verbatim_without_added_newlines() {
    let sb = Sandbox::new();
    let r = sb.exec("import sys\nsys.stdout.write('a')\nsys.stdout.write('b')");
    assert_eq!(r.out, "ab");
}
