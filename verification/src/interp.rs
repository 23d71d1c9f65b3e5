use vstd::prelude::*;

use std::cell::RefCell;
use std::rc::Rc;

use crate::response::Value;

verus! {

// ---- Declarations of the interpreter crate's types ----
//
// Values of these types are opaque: the library carries them between calls
// into the interpreter crate and states nothing of what is inside them.

#[verifier::external_type_specification]
#[verifier::external_body]
pub struct ExInterpreter(rustpython_vm::Interpreter);

#[verifier::external_type_specification]
#[verifier::external_body]
pub struct ExVirtualMachine(rustpython_vm::VirtualMachine);

#[verifier::external_type_specification]
#[verifier::external_body]
pub struct ExScope(rustpython_vm::scope::Scope);

#[verifier::external_type_specification]
#[verifier::external_body]
pub struct ExPyObjectRef(rustpython_vm::PyObjectRef);

#[verifier::external_type_specification]
#[verifier::external_body]
#[verifier::reject_recursive_types(T)]
pub struct ExPyRef<T>(rustpython_vm::PyRef<T>);

#[verifier::external_type_specification]
#[verifier::external_body]
pub struct ExPyCode(rustpython_vm::builtins::PyCode);

#[verifier::external_type_specification]
#[verifier::external_body]
pub struct ExPyBaseException(rustpython_vm::builtins::PyBaseException);

#[verifier::external_type_specification]
#[verifier::external_body]
#[verifier::reject_recursive_types(T)]
pub struct ExRefCell<T: ?Sized>(RefCell<T>);

// ---- Names for what the interpreter returns ----
//
// Compilation is a function of the source text and the mode alone: it never
// reads the scope. These names stand for its outcome; what they are on a
// given source only the interpreter itself can say.

/// Whether the interpreter's compiler accepts the source as one expression.
pub uninterp spec fn parses_as_expr(source: Seq<char>) -> bool;

/// The syntax diagnostic the interpreter renders when the source is rejected
/// as one expression.
pub uninterp spec fn expr_diag(source: Seq<char>) -> Seq<char>;

/// Whether the interpreter's compiler accepts the source as a statement
/// sequence.
pub uninterp spec fn parses_as_stmts(source: Seq<char>) -> bool;

/// The syntax diagnostic the interpreter renders when the source is rejected
/// as a statement sequence.
pub uninterp spec fn stmts_diag(source: Seq<char>) -> Seq<char>;

// ---- What one run hands back ----

/// What one run against the session produced: the text captured from the
/// program's standard output and standard error, and the run's outcome. On
/// failure the outcome carries the formatted diagnostic.
pub struct Captured<T> {
    pub out: String,
    pub err: String,
    pub outcome: Result<T, String>,
}

// ---- Trusted calls into the interpreter crate ----

/// Relies on rustpython_vm's Interpreter::without_stdlib: a fresh interpreter
/// with default settings, its own built-in modules loaded. The optional
/// standard-library module set stays unloaded, so importing one of its
/// modules fails at runtime with an import diagnostic.
#[verifier::external_body]
pub(crate) fn new_interpreter() -> (r: rustpython_vm::Interpreter) {
    rustpython_vm::Interpreter::without_stdlib(rustpython_vm::Settings::default())
}

/// Relies on VirtualMachine::new_scope_with_builtins: a fresh variable scope
/// whose globals are seeded with the interpreter's builtins.
#[verifier::external_body]
pub(crate) fn new_scope(interp: &rustpython_vm::Interpreter) -> (r: rustpython_vm::scope::Scope) {
    interp.enter(|vm| vm.new_scope_with_builtins())
}

/// Relies on VirtualMachine::compile in single-expression mode, which reads
/// the source text alone, and — on rejection — on new_syntax_error and
/// write_exception for the interpreter's native syntax diagnostic, which is
/// never empty (it always names the error).
#[verifier::external_body]
pub(crate) fn compile_expr(interp: &rustpython_vm::Interpreter, source: &str) -> (r: Result<
    rustpython_vm::PyRef<rustpython_vm::builtins::PyCode>,
    String,
>)
    ensures
        r is Ok <==> parses_as_expr(source@),
        r is Err ==> r->Err_0@ == expr_diag(source@) && r->Err_0@.len() > 0,
{
    interp.enter(|vm| {
        vm.compile(source, rustpython_vm::compiler::Mode::Eval, "<embedded>".to_owned())
            .map_err(|e| exception_text(vm, &vm.new_syntax_error(&e, Some(source))))
    })
}

/// Relies on VirtualMachine::compile in statement-sequence mode, which reads
/// the source text alone, and — on rejection — on new_syntax_error and
/// write_exception for the interpreter's native syntax diagnostic, which is
/// never empty (it always names the error).
#[verifier::external_body]
pub(crate) fn compile_stmts(interp: &rustpython_vm::Interpreter, source: &str) -> (r: Result<
    rustpython_vm::PyRef<rustpython_vm::builtins::PyCode>,
    String,
>)
    ensures
        r is Ok <==> parses_as_stmts(source@),
        r is Err ==> r->Err_0@ == stmts_diag(source@) && r->Err_0@.len() > 0,
{
    interp.enter(|vm| {
        vm.compile(source, rustpython_vm::compiler::Mode::Exec, "<embedded>".to_owned())
            .map_err(|e| exception_text(vm, &vm.new_syntax_error(&e, Some(source))))
    })
}

/// Relies on VirtualMachine::run_code_obj to run the compiled expression
/// against the given scope, and on describe_object for the result's type name
/// and representation. Fresh buffers are installed as the interpreter's
/// console for this run alone; whatever the program wrote up to a failure is
/// handed back beside the outcome, whatever that outcome is.
#[verifier::external_body]
pub(crate) fn run_expr(
    interp: &rustpython_vm::Interpreter,
    scope: &rustpython_vm::scope::Scope,
    code: &rustpython_vm::PyRef<rustpython_vm::builtins::PyCode>,
) -> (r: Captured<Value>)
    ensures
        r.outcome is Err ==> r.outcome->Err_0@.len() > 0,
{
    let out: Rc<RefCell<String>> = Rc::new(RefCell::new(String::new()));
    let err: Rc<RefCell<String>> = Rc::new(RefCell::new(String::new()));
    let outcome = interp.enter(|vm| {
        install_streams(vm, out.clone(), err.clone());
        vm.run_code_obj(code.clone(), scope.clone())
            .and_then(|v| describe_object(vm, &v))
            .map_err(|e| exception_text(vm, &e))
    });
    let captured_out = out.borrow().clone();
    let captured_err = err.borrow().clone();
    Captured { out: captured_out, err: captured_err, outcome }
}

/// Relies on VirtualMachine::run_code_obj to run the compiled statement
/// sequence against the given scope; the run's value is discarded, as
/// statement sequences produce only effects. Fresh buffers are installed as
/// the interpreter's console for this run alone; whatever the program wrote
/// up to a failure is handed back beside the outcome.
#[verifier::external_body]
pub(crate) fn run_stmts(
    interp: &rustpython_vm::Interpreter,
    scope: &rustpython_vm::scope::Scope,
    code: &rustpython_vm::PyRef<rustpython_vm::builtins::PyCode>,
) -> (r: Captured<()>)
    ensures
        r.outcome is Err ==> r.outcome->Err_0@.len() > 0,
{
    let out: Rc<RefCell<String>> = Rc::new(RefCell::new(String::new()));
    let err: Rc<RefCell<String>> = Rc::new(RefCell::new(String::new()));
    let outcome = interp.enter(|vm| {
        install_streams(vm, out.clone(), err.clone());
        vm.run_code_obj(code.clone(), scope.clone())
            .map(|_| ())
            .map_err(|e| exception_text(vm, &e))
    });
    let captured_out = out.borrow().clone();
    let captured_err = err.borrow().clone();
    Captured { out: captured_out, err: captured_err, outcome }
}

/// Relies on PyObject::obj_type and get_attr("__name__") for the value's
/// runtime type name, try_to_value to read that name as text, and
/// PyObject::repr for the value's canonical representation. Any of these may
/// raise (pathological objects); the raise is handed back.
#[verifier::external_body]
pub(crate) fn describe_object(
    vm: &rustpython_vm::VirtualMachine,
    obj: &rustpython_vm::PyObjectRef,
) -> (r: Result<Value, rustpython_vm::PyRef<rustpython_vm::builtins::PyBaseException>>) {
    let datatype: String = obj.obj_type().get_attr("__name__", vm)?.try_to_value(vm)?;
    let value = obj.repr(vm)?.to_string();
    Ok(Value { value, datatype })
}

/// Relies on VirtualMachine::write_exception, which renders the exception as
/// the interpreter's native traceback text; writing into a String cannot
/// fail, and the text always names the exception's type, so it is never
/// empty.
#[verifier::external_body]
pub(crate) fn exception_text(
    vm: &rustpython_vm::VirtualMachine,
    exc: &rustpython_vm::PyRef<rustpython_vm::builtins::PyBaseException>,
) -> (r: String)
    ensures
        r@.len() > 0,
{
    let mut text = String::new();
    let _ = vm.write_exception(&mut text, exc);
    text
}

/// Relies on PyObject::set_attr on the interpreter's sys module: rebinds the
/// interpreter's standard output and standard error to two fresh writer
/// objects, one per buffer. The rebinding being rejected means the session is
/// corrupt, and aborts the call rather than returning a response.
#[verifier::external_body]
pub(crate) fn install_streams(
    vm: &rustpython_vm::VirtualMachine,
    out: Rc<RefCell<String>>,
    err: Rc<RefCell<String>>,
) {
    let stdout = make_writer(vm, out);
    let stderr = make_writer(vm, err);
    vm.sys_module.set_attr("stdout", stdout, vm).unwrap();
    vm.sys_module.set_attr("stderr", stderr, vm).unwrap();
}

/// Relies on Context::new_class, VirtualMachine::new_method and
/// Context::new_base_object: a fresh object whose `write` appends the written
/// text to the given buffer and whose `flush` does nothing. The interpreter's
/// strings are WTF-8: well-formed text is appended unchanged, while a lone
/// surrogate is replaced rather than appended, per to_string_lossy.
#[verifier::external_body]
pub(crate) fn make_writer(
    vm: &rustpython_vm::VirtualMachine,
    buf: Rc<RefCell<String>>,
) -> (r: rustpython_vm::PyObjectRef) {
    let mut slots = rustpython_vm::types::PyTypeSlots::heap_default();
    slots.flags = rustpython_vm::types::PyTypeFlags::BASETYPE;
    let cls = rustpython_vm::PyRef::leak(
        vm.ctx.new_class(None, "SandboxWriter", vm.ctx.types.object_type.to_owned(), slots),
    );
    let write = vm.new_method("write", cls, move |_slf: rustpython_vm::PyObjectRef,
        data: rustpython_vm::builtins::PyStrRef,
        _vm: &rustpython_vm::VirtualMachine| -> rustpython_vm::PyResult<()>
        { buf.borrow_mut().push_str(&data.to_string_lossy()); Ok(()) });
    let flush = vm.new_method("flush", cls, |_slf: rustpython_vm::PyObjectRef| {});
    cls.set_attr(vm.ctx.intern_str("write"), write.into());
    cls.set_attr(vm.ctx.intern_str("flush"), flush.into());
    vm.ctx.new_base_object(cls.to_owned(), None)
}

} // verus!
