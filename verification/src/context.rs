use vstd::prelude::*;
use vstd::string::StringExecFns;

verus! {

/// The placeholder shown before any response has arrived.
pub open spec fn placeholder() -> Seq<char> {
    "No data yet."@
}

/// The shared response holder: a single cell of text holding the most
/// recent server reply, readable by every view and writable only through
/// `reduce`, which replaces the value wholesale.
#[derive(Clone)]
pub struct Message {
    pub data: String,
}

impl View for Message {
    type V = Seq<char>;

    open spec fn view(&self) -> Seq<char> {
        self.data@
    }
}

impl Message {
    /// The holder's starting value: the fixed placeholder text.
    pub fn initial() -> (m: Message)
        ensures
            m@ == placeholder(),
    {
        Message { data: String::from_str("No data yet.") }
    }

    /// Replace the held text with `action` in full; nothing of the old
    /// value survives and nothing of `action` is altered.
    pub fn reduce(&self, action: String) -> (m: Message)
        ensures
            m@ == action@,
    {
        Message { data: action }
    }
}

} // verus!
