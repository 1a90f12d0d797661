//! String-to-reference conversion inside `Option`.

use vstd::prelude::*;

verus! {

/// Convert `Option<String>` to `Option<&str>`.
pub trait ToOptStr {
    /// Given an owned option of a string, converts it into an option of a reference.
    fn to_opt_str(&self) -> Option<&str>;
}

impl ToOptStr for Option<String> {
    fn to_opt_str(&self) -> (text: Option<&str>)
        ensures
            match *self {
                Some(owned) => text matches Some(text) && text@ == owned@,
                None => text is None,
            },
    {
        match self {
            Some(text) => Some(text.as_str()),
            None => None,
        }
    }
}

impl<'a> ToOptStr for Option<&'a str> {
    fn to_opt_str(&self) -> (text: Option<&str>)
        ensures
            match *self {
                Some(borrowed) => text matches Some(text) && text@ == borrowed@,
                None => text is None,
            },
    {
        match self {
            Some(text) => Some(*text),
            None => None,
        }
    }
}

} // verus!
