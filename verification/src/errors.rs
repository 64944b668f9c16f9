//! The errors of the library.
use vstd::prelude::*;

verus! {

/// What the library reports when it cannot do as asked.
#[derive(Debug)]
pub enum Error {
    /// A command was given arguments it cannot use, or found nothing.
    DoCmdError(String),
    /// Anything else, in words.
    OtherError(String),
}

impl Error {
    /// The words that this error is shown with.
    pub open spec fn text(self) -> Seq<char> {
        match self {
            Error::DoCmdError(reason) => "do command failed: "@ + reason@,
            Error::OtherError(reason) => reason@,
        }
    }

    /// The words that this error is shown with.
    pub fn to_string(&self) -> (text: String)
        ensures
            text@ == self.text(),
    {
        match self {
            Error::DoCmdError(reason) => {
                let mut text = "do command failed: ".to_owned();
                text.append(reason.as_str());
                text
            },
            Error::OtherError(reason) => reason.clone(),
        }
    }
}

} // verus!
