use vstd::prelude::*;

verus! {

/// Why a raw numeric token could not be normalized.
#[derive(Clone, Copy, PartialEq, Eq, Structural, Debug)]
pub enum NumericError {
    /// The residue after stripping separators and the unit word is not a
    /// non-empty string of decimal digits, or its value does not fit.
    MalformedNumber,
    /// One half of an "A / B" connection token is not numeric.
    MalformedConnectionPair,
}

/// Why a raw report could not be decoded.
#[derive(Clone, Copy, PartialEq, Eq, Structural, Debug)]
pub enum DecodeError {
    /// The input could not be read as a table at all.
    Io,
    /// A recognized numeric field failed normalization.
    Numeric,
}

/// An error surfaced from running the admin tool, carrying the tool's own
/// diagnostic text verbatim.
#[derive(Debug)]
pub struct SoftEtherError {
    msg: String,
}

impl View for SoftEtherError {
    type V = Seq<char>;

    closed spec fn view(&self) -> Seq<char> {
        self.msg@
    }
}

impl DeepView for SoftEtherError {
    type V = Seq<char>;

    closed spec fn deep_view(&self) -> Seq<char> {
        self.msg@
    }
}

impl SoftEtherError {
    pub fn new(msg: String) -> (r: SoftEtherError)
        ensures
            r@ == msg@,
    {
        SoftEtherError { msg }
    }

    /// The diagnostic message.
    pub fn message(&self) -> (r: &String)
        ensures
            r@ == self@,
    {
        &self.msg
    }
}

} // verus!
