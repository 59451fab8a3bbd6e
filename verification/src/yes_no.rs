//! The tri-state catalog flag: a column such as `is_nullable` is either
//! absent or carries the literal string `YES` or `NO`.
use vstd::prelude::*;
use crate::text::str_eq;

verus! {

/// A decoded `YES`/`NO` catalog flag.
#[derive(Clone, Copy, Debug, PartialEq, Eq, Structural)]
pub enum YesNo {
    No,
    Yes,
}

impl Default for YesNo {
    /// The flag's default when a row leaves it unset.
    fn default() -> (r: Self)
        ensures
            r == YesNo::No,
    {
        YesNo::No
    }
}

impl YesNo {
    /// Returns `true` if the flag is [`Yes`].
    ///
    /// [`Yes`]: YesNo::Yes
    pub fn is_yes(&self) -> (r: bool)
        ensures
            r == (*self == YesNo::Yes),
    {
        matches!(self, YesNo::Yes)
    }

    /// Returns `true` if the flag is [`No`].
    ///
    /// [`No`]: YesNo::No
    pub fn is_no(&self) -> (r: bool)
        ensures
            r == (*self == YesNo::No),
    {
        matches!(self, YesNo::No)
    }

    /// Decodes the literal catalog strings `YES` and `NO`; anything else is
    /// a decode error, reported as `None`.
    pub fn decode(value: &str) -> (r: Option<YesNo>)
        ensures
            r == (if value@ == "YES"@ {
                Some(YesNo::Yes)
            } else if value@ == "NO"@ {
                Some(YesNo::No)
            } else {
                None::<YesNo>
            }),
    {
        if str_eq(value, "YES") {
            Some(YesNo::Yes)
        } else if str_eq(value, "NO") {
            Some(YesNo::No)
        } else {
            None
        }
    }
}

} // verus!
