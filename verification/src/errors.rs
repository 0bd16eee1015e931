//! What a failed conversion reports.

use vstd::prelude::*;
use vstd::string::*;

verus! {

/// A device that no backend answers to. Carries what was given: the name
/// as it was written, or the number found in a record as its decimal
/// numeral.
#[derive(Debug)]
pub struct UnsupportedDeviceError(pub String);

impl UnsupportedDeviceError {
    /// The text a user is shown for this error.
    pub open spec fn spec_message(&self) -> Seq<char> {
        "unsupported device: "@ + self.0@
    }

    /// The text a user is shown for this error.
    pub fn message(&self) -> (text: String)
        ensures
            text@ == self.spec_message(),
    {
        let mut text = String::from_str("unsupported device: ");
        text.append(self.0.as_str());
        text
    }
}

/// An element kind code outside the known set. Carries the code in decimal.
#[derive(Debug)]
pub struct UnsupportedDataTypeCode(pub String);

impl UnsupportedDataTypeCode {
    /// The text a user is shown for this error.
    pub open spec fn spec_message(&self) -> Seq<char> {
        "unsupported data type code: "@ + self.0@
    }

    /// The text a user is shown for this error.
    pub fn message(&self) -> (text: String)
        ensures
            text@ == self.spec_message(),
    {
        let mut text = String::from_str("unsupported data type code: ");
        text.append(self.0.as_str());
        text
    }
}

} // verus!
