use vstd::prelude::*;

verus! {

/// The fault of a token that names nothing it should: a malformed status
/// or block type.
#[derive(Clone, Debug, PartialEq, Eq)]
pub struct ParseError {
    message: String,
}

impl View for ParseError {
    type V = Seq<char>;

    closed spec fn view(&self) -> Seq<char> {
        self.message@
    }
}

impl ParseError {
    /// A fault with the given text.
    pub fn with_message(message: &str) -> (r: Self)
        ensures
            r@ == message@,
    {
        ParseError { message: message.to_owned() }
    }

    /// The text of the fault.
    pub fn message(&self) -> (r: &str)
        ensures
            r@ == self@,
    {
        self.message.as_str()
    }
}

} // verus!
