//! String-to-reference conversion inside `Option`.

use vstd::prelude::*;

verus! {

/// Acquire an `Option<&str>` from given value.
pub trait AsOptStr {
    /// Given value, converts it into an option of a string reference.
    fn as_opt_str(&self) -> Option<&str>;
}

impl AsOptStr for Option<String> {
    fn as_opt_str(&self) -> (text: Option<&str>)
        ensures
            match *self {
                Some(owned) => text matches Some(text) && text@ == owned@,
                None => text is None,
            },
    {
        match self {
            Some(text) => Some(text.as_str()),
            None => None,
        }
    }
}

impl<'a> AsOptStr for Option<&'a str> {
    fn as_opt_str(&self) -> (text: Option<&str>)
        ensures
            match *self {
                Some(borrowed) => text matches Some(text) && text@ == borrowed@,
                None => text is None,
            },
    {
        match self {
            Some(text) => Some(*text),
            None => None,
        }
    }
}

} // verus!
