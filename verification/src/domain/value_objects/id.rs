//! Identifiers of user records.

use vstd::prelude::*;
use vstd::std_specs::convert::FromSpecImpl;
use vstd::std_specs::convert::TryFromSpecImpl;

verus! {

/// The text that `uuid` prints for the 128-bit value `bits`: 32 lower-case
/// hexadecimal digits in groups of 8, 4, 4, 4 and 12, with hyphens between.
pub uninterp spec fn uuid_text(bits: u128) -> Seq<char>;

/// What `uuid` reads out of `text`: the 128-bit value, or the reason for
/// which the text is no UUID.
pub uninterp spec fn uuid_parse(text: Seq<char>) -> Result<u128, Seq<char>>;

/// The identifier that `text` stands for: the UUID read out of it, unless the
/// text is no UUID or the UUID is nil.
pub open spec fn id_of_text(text: Seq<char>) -> Result<u128, Seq<char>> {
    match uuid_parse(text) {
        Ok(bits) => if bits != 0 {
            Ok(bits)
        } else {
            Err("Id is nil"@)
        },
        Err(reason) => Err(reason),
    }
}

/// The identifier of a user record: a UUID that is not nil.
#[derive(PartialEq, Eq, Clone, Copy, Debug, Structural)]
pub struct Id(u128);

impl View for Id {
    type V = u128;

    closed spec fn view(&self) -> u128 {
        self.0
    }
}

impl Id {
    #[verifier::type_invariant]
    spec fn well_formed(self) -> bool {
        self.0 != 0
    }

    /// A fresh random identifier.
    pub fn new() -> (id: Self)
        ensures
            id@ != 0,
    {
        Id(random_uuid())
    }

    /// The 128 bits of the identifier, never zero.
    pub fn bits(&self) -> (bits: u128)
        ensures
            bits == self@,
            bits != 0,
    {
        proof {
            use_type_invariant(self);
        }
        self.0
    }

    /// The identifier in hyphenated form.
    pub fn to_string(&self) -> (text: String)
        ensures
            text@ == uuid_text(self@),
            uuid_parse(text@) is Ok && uuid_parse(text@)->Ok_0 == self@,
    {
        uuid_to_text(self.0)
    }
}

impl TryFrom<u128> for Id {
    type Error = String;

    /// Accepts every value but zero, the nil UUID.
    fn try_from(value: u128) -> (r: Result<Self, String>)
        ensures
            value != 0 ==> r is Ok && r->Ok_0@ == value,
            value == 0 ==> r is Err && r->Err_0@ == "Id is nil"@,
    {
        if value == 0 {
            return Err("Id is nil".to_string());
        }
        Ok(Id(value))
    }
}

impl TryFromSpecImpl<u128> for Id {
    open spec fn obeys_try_from_spec() -> bool {
        false
    }

    open spec fn try_from_spec(v: u128) -> Result<Self, String> {
        arbitrary()
    }
}

impl TryFrom<String> for Id {
    type Error = String;

    /// Reads a UUID in any of the forms `uuid` prints and accepts it unless it is nil.
    fn try_from(value: String) -> (r: Result<Self, String>)
        ensures
            r is Ok <==> id_of_text(value@) is Ok,
            r is Ok ==> r->Ok_0@ == id_of_text(value@)->Ok_0,
            r is Err ==> r->Err_0@ == id_of_text(value@)->Err_0,
    {
        match uuid_from_text(value.as_str()) {
            Ok(bits) => {
                if bits == 0 {
                    return Err("Id is nil".to_string());
                }
                Ok(Id(bits))
            },
            Err(reason) => Err(reason),
        }
    }
}

impl TryFromSpecImpl<String> for Id {
    open spec fn obeys_try_from_spec() -> bool {
        false
    }

    open spec fn try_from_spec(v: String) -> Result<Self, String> {
        arbitrary()
    }
}

impl From<Id> for u128 {
    fn from(id: Id) -> (bits: u128) {
        id.0
    }
}

impl FromSpecImpl<Id> for u128 {
    open spec fn obeys_from_spec() -> bool {
        true
    }

    open spec fn from_spec(id: Id) -> u128 {
        id@
    }
}

impl From<Id> for String {
    fn from(id: Id) -> (text: String)
        ensures
            text@ == uuid_text(id@),
            uuid_parse(text@) is Ok && uuid_parse(text@)->Ok_0 == id@,
    {
        uuid_to_text(id.0)
    }
}

impl FromSpecImpl<Id> for String {
    open spec fn obeys_from_spec() -> bool {
        false
    }

    open spec fn from_spec(id: Id) -> String {
        arbitrary()
    }
}

/// Calls `uuid::Uuid::new_v4` and takes the value with `as_u128`. Not proved:
/// that the value is not zero. `new_v4` sets the version and variant bits of
/// every value it returns, so at least two bits are 1. Which value comes back
/// is left open.
#[verifier::external_body]
fn random_uuid() -> (bits: u128)
    ensures
        bits != 0,
{
    uuid::Uuid::new_v4().as_u128()
}

/// Calls `to_string` on `uuid::Uuid::from_u128(bits)`. Not proved: that the
/// text is the hyphenated form, named `uuid_text`, and that `uuid` reads the
/// same value back out of it, as the documentation of `Uuid::parse_str`
/// promises for every form the crate prints.
#[verifier::external_body]
fn uuid_to_text(bits: u128) -> (text: String)
    ensures
        text@ == uuid_text(bits),
        uuid_parse(text@) is Ok && uuid_parse(text@)->Ok_0 == bits,
{
    uuid::Uuid::from_u128(bits).to_string()
}

/// Calls `uuid::Uuid::parse_str`. Not proved: that the outcome is the one
/// named `uuid_parse`, with the value taken by `as_u128` and the error by its
/// message.
#[verifier::external_body]
fn uuid_from_text(text: &str) -> (r: Result<u128, String>)
    ensures
        r is Ok ==> uuid_parse(text@) is Ok && uuid_parse(text@)->Ok_0 == r->Ok_0,
        r is Err ==> uuid_parse(text@) is Err && uuid_parse(text@)->Err_0 == r->Err_0@,
{
    match uuid::Uuid::parse_str(text) {
        Ok(value) => Ok(value.as_u128()),
        Err(reason) => Err(reason.to_string()),
    }
}

} // verus!
