use vstd::prelude::*;
use vstd::string::StringExecFns;

verus! {

/// An append-only text accumulator. One pair of sinks (standard output,
/// standard error) is created fresh for every call against a session, so
/// that text captured during one call can never leak into another.
pub struct Sink {
    buf: String,
}

impl View for Sink {
    type V = Seq<char>;

    closed spec fn view(&self) -> Seq<char> {
        self.buf@
    }
}

impl Sink {
    /// A fresh, empty sink.
    pub fn new() -> (s: Sink)
        ensures
            s@ == Seq::<char>::empty(),
    {
        Sink { buf: String::new() }
    }

    /// Appends `text` verbatim: no transformation, no implicit newline.
    pub fn write(&mut self, text: &str)
        ensures
            final(self)@ == old(self)@ + text@,
    {
        self.buf.append(text);
    }

    /// Flushing is a no-op: the sink is always live.
    pub fn flush(&mut self)
        ensures
            final(self)@ == old(self)@,
    {
    }

    /// Everything written so far, in write order.
    pub fn contents(&self) -> (r: String)
        ensures
            r@ == self@,
    {
        self.buf.clone()
    }

    /// Consumes the sink, handing back everything written so far.
    pub fn into_string(self) -> (r: String)
        ensures
            r@ == self@,
    {
        self.buf
    }
}

} // verus!
