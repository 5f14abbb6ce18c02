//! What the gateway tells a client about one file of the provider.

use crate::domain::value_objects::timestamp::Timestamp;
use vstd::prelude::*;

verus! {

/// One file as listed to the client.
#[derive(Debug)]
pub struct FileInfo {
    pub id: String,
    pub name: String,
    /// The provider's content type for the file.
    pub file_type: String,
    pub created_at: Option<Timestamp>,
}

/// A listed file as plain values.
pub struct FileInfoView {
    pub id: Seq<char>,
    pub name: Seq<char>,
    pub file_type: Seq<char>,
    pub created_at: Option<Timestamp>,
}

impl View for FileInfo {
    type V = FileInfoView;

    open spec fn view(&self) -> FileInfoView {
        FileInfoView {
            id: self.id@,
            name: self.name@,
            file_type: self.file_type@,
            created_at: self.created_at,
        }
    }
}

/// A listing as plain values.
pub open spec fn listing_view(files: Vec<FileInfo>) -> Seq<FileInfoView> {
    files@.map_values(|file: FileInfo| file@)
}

} // verus!
