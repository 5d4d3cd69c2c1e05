//! Values that flow through the transfer pipelines.

use vstd::prelude::*;

verus! {

/// A remote object as the listing calls describe it.
#[derive(Clone, Debug, PartialEq, Eq)]
pub struct ObjectRef {
    pub id: String,
    pub project_id: String,
    pub dataset_id: String,
    pub filename: String,
    /// The file extension, without the dot.
    pub filetype: String,
    /// The size in bytes, where the listing gave one.
    pub content_len: Option<u64>,
}

impl ObjectRef {
    /// A field-by-field copy.
    pub fn duplicate(&self) -> (r: ObjectRef)
        ensures
            r == *self,
    {
        ObjectRef {
            id: self.id.clone(),
            project_id: self.project_id.clone(),
            dataset_id: self.dataset_id.clone(),
            filename: self.filename.clone(),
            filetype: self.filetype.clone(),
            content_len: self.content_len,
        }
    }
}

/// A remote dataset, as far as a path layout needs it.
#[derive(Clone, Debug, PartialEq, Eq)]
pub struct DatasetRef {
    pub id: String,
    pub project_id: String,
}

/// One unit of work for the download workers: an object and the name of the
/// object group it was listed in.
#[derive(Clone, Debug, PartialEq, Eq)]
pub struct ObjectDownloadMessage {
    pub object: ObjectRef,
    pub object_group_name: String,
}

/// An object group as a listing returns it: its name and its objects, in
/// listing order.
#[derive(Clone, Debug, PartialEq, Eq)]
pub struct GroupListing {
    pub name: String,
    pub objects: Vec<ObjectRef>,
}


} // verus!
