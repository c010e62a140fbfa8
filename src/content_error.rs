//! An error reported by the venue in a reply's content.
use vstd::prelude::*;
use vstd::string::*;

verus! {

/// An error label and message sent by the venue.
#[derive(Clone, Debug, PartialEq, Eq)]
pub struct GateIOContentError {
    pub label: String,
    pub message: String,
}

/// The text that describes the error: `label: <label>, msg: <message>`.
pub open spec fn describe_spec(label: Seq<char>, message: Seq<char>) -> Seq<char> {
    "label: "@ + label + ", msg: "@ + message
}

impl GateIOContentError {
    /// Describes the error in one line.
    pub fn describe(&self) -> (r: String)
        ensures
            r@ == describe_spec(self.label@, self.message@),
    {
        let mut t = String::from_str("label: ");
        t.append(self.label.as_str());
        t.append(", msg: ");
        t.append(self.message.as_str());
        t
    }
}

} // verus!
