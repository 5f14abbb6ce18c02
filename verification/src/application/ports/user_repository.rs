//! The store of user records, looked up by identifier and by email address.

use crate::domain::entities::user::UserView;
use crate::text::join;
use vstd::prelude::*;

verus! {

/// How a call to the store can fail.
#[derive(Debug)]
pub enum Error {
    /// No record matches.
    NotFound,
    ConnectionError(String),
    Unknown(String),
}

/// A store failure as plain values.
pub enum ErrorView {
    NotFound,
    ConnectionError(Seq<char>),
    Unknown(Seq<char>),
}

impl View for Error {
    type V = ErrorView;

    open spec fn view(&self) -> ErrorView {
        match self {
            Error::NotFound => ErrorView::NotFound,
            Error::ConnectionError(detail) => ErrorView::ConnectionError(detail@),
            Error::Unknown(detail) => ErrorView::Unknown(detail@),
        }
    }
}

impl ErrorView {
    /// The failure in words.
    pub open spec fn message(self) -> Seq<char> {
        match self {
            ErrorView::NotFound => "Not Found"@,
            ErrorView::ConnectionError(detail) => "Connection Error: "@ + detail,
            ErrorView::Unknown(detail) => "Unknown Error: "@ + detail,
        }
    }
}

impl Error {
    /// The failure in words.
    pub fn to_string(&self) -> (text: String)
        ensures
            text@ == self@.message(),
    {
        match self {
            Error::NotFound => "Not Found".to_string(),
            Error::ConnectionError(detail) => join("Connection Error: ", detail.as_str()),
            Error::Unknown(detail) => join("Unknown Error: ", detail.as_str()),
        }
    }
}

/// What a lookup that found at most one record turns into: the record, or `NotFound`.
pub open spec fn found_or_missing(found: Option<UserView>) -> Result<UserView, ErrorView> {
    match found {
        Some(user) => Ok(user),
        None => Err(ErrorView::NotFound),
    }
}

/// The records of a store that answers every call, in the order they were
/// created. This is how the use cases expect a store to behave when nobody
/// else writes to it.
pub type Records = Seq<UserView>;

/// No two records share an email address or an identifier.
pub open spec fn distinct_records(records: Records) -> bool {
    forall|i: int, j: int|
        0 <= i < records.len() && 0 <= j < records.len() && i != j ==> records[i].email
            != records[j].email && records[i].id != records[j].id
}

/// Some record carries `email`.
pub open spec fn has_email(records: Records, email: Seq<char>) -> bool {
    exists|i: int| 0 <= i < records.len() && #[trigger] records[i].email == email
}

/// Some record carries the identifier `id`.
pub open spec fn has_id(records: Records, id: u128) -> bool {
    exists|i: int| 0 <= i < records.len() && #[trigger] records[i].id == id
}

/// The position of a record that carries `email`.
pub open spec fn position_of_email(records: Records, email: Seq<char>) -> int {
    choose|i: int| 0 <= i < records.len() && #[trigger] records[i].email == email
}

/// The answer to a lookup by email address.
pub open spec fn find_by_email(records: Records, email: Seq<char>) -> Result<UserView, ErrorView> {
    if has_email(records, email) {
        Ok(records[position_of_email(records, email)])
    } else {
        Err(ErrorView::NotFound)
    }
}

/// The records after `user` was created: one more, at the end.
pub open spec fn after_create(records: Records, user: UserView) -> Records {
    records.push(user)
}

/// The records after `user` was written over the record with its identifier;
/// the others are left as they are.
pub open spec fn after_update(records: Records, user: UserView) -> Records {
    Seq::new(
        records.len(),
        |i: int|
            if records[i].id == user.id {
                user
            } else {
                records[i]
            },
    )
}

/// How many records carry `email`.
pub open spec fn count_email(records: Records, email: Seq<char>) -> nat
    decreases records.len(),
{
    if records.len() == 0 {
        0
    } else {
        let rest = count_email(records.drop_last(), email);
        if records.last().email == email {
            rest + 1
        } else {
            rest
        }
    }
}

/// Among distinct records, an address is carried by one record or by none.
pub proof fn lemma_count_email(records: Records, email: Seq<char>)
    requires
        distinct_records(records),
    ensures
        count_email(records, email) == if has_email(records, email) {
            1nat
        } else {
            0nat
        },
    decreases records.len(),
{
    if records.len() > 0 {
        let rest = records.drop_last();
        let last = records.len() - 1;
        assert forall|i: int, j: int|
            0 <= i < rest.len() && 0 <= j < rest.len() && i != j implies rest[i].email
            != rest[j].email && rest[i].id != rest[j].id by {
            assert(rest[i] == records[i] && rest[j] == records[j]);
        }
        lemma_count_email(rest, email);
        if has_email(rest, email) {
            let j = choose|j: int| 0 <= j < rest.len() && #[trigger] rest[j].email == email;
            assert(records[j].email == email);
            assert(records[j].email != records[last].email);
        }
        if records.last().email == email {
            assert(records[last].email == email);
        } else if has_email(records, email) {
            let j = choose|j: int| 0 <= j < records.len() && #[trigger] records[j].email == email;
            assert(rest[j].email == email);
        }
    }
}

/// Among distinct records, the lookup by address finds the record that carries it.
pub proof fn lemma_find_by_email(records: Records, at: int)
    requires
        distinct_records(records),
        0 <= at < records.len(),
    ensures
        find_by_email(records, records[at].email) == Ok::<UserView, ErrorView>(records[at]),
{
    let email = records[at].email;
    assert(records[at].email == email);
    let found = position_of_email(records, email);
    assert(0 <= found < records.len() && records[found].email == email);
    assert(found == at);
}

} // verus!
