use vstd::prelude::*;

verus! {

/// A protocol failure, carrying a human-readable cause. The cause's
/// leading words name the category: connection, write, read, decoding,
/// deserialization, or a truncated frame.
#[derive(Debug)]
pub struct PlugError {
    details: String,
}

impl View for PlugError {
    type V = Seq<char>;

    closed spec fn view(&self) -> Seq<char> {
        self.details@
    }
}

impl PlugError {
    pub fn new(msg: &str) -> (r: PlugError)
        ensures
            r@ == msg@,
    {
        PlugError { details: msg.to_owned() }
    }

    /// The human-readable cause.
    pub fn message(&self) -> (r: &str)
        ensures
            r@ == self@,
    {
        self.details.as_str()
    }
}

} // verus!
