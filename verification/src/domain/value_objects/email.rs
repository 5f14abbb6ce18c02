//! Email addresses, the key by which a provider identity is matched to a user.

use crate::text::{contains_char, has_char};
use vstd::prelude::*;

verus! {

/// What makes text acceptable as an email address: it is not empty and holds an `@`.
pub open spec fn valid_email(s: Seq<char>) -> bool {
    s.len() > 0 && has_char(s, '@')
}

/// Why text that is no valid address is turned down.
pub open spec fn email_rejection(s: Seq<char>) -> Seq<char> {
    if s.len() == 0 {
        "Email cannot be empty"@
    } else {
        "Email must contain @"@
    }
}

/// An email address that passed `valid_email`.
#[derive(PartialEq, Debug)]
pub struct Email(String);

impl View for Email {
    type V = Seq<char>;

    closed spec fn view(&self) -> Seq<char> {
        self.0@
    }
}

impl Email {
    #[verifier::type_invariant]
    spec fn well_formed(self) -> bool {
        valid_email(self.0@)
    }

    /// Accepts `value` where it is a valid address and says why where it is not.
    pub fn new(value: String) -> (r: Result<Self, String>)
        ensures
            r is Ok <==> valid_email(value@),
            r is Ok ==> r->Ok_0@ == value@,
            r is Err ==> r->Err_0@ == email_rejection(value@),
    {
        if value.as_str().is_empty() {
            return Err("Email cannot be empty".to_string());
        }
        if !contains_char(value.as_str(), '@') {
            return Err("Email must contain @".to_string());
        }
        Ok(Email(value))
    }

    /// The address as text.
    pub fn as_str(&self) -> (s: &str)
        ensures
            s@ == self@,
            valid_email(s@),
    {
        proof {
            use_type_invariant(self);
        }
        self.0.as_str()
    }

}

impl Clone for Email {
    fn clone(&self) -> (copy: Self)
        ensures
            copy@ == self@,
    {
        proof {
            use_type_invariant(self);
        }
        Email(self.0.clone())
    }
}

} // verus!
