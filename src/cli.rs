//! The command line's arguments, as plain values.

use vstd::prelude::*;

verus! {

/// `ls`: lists the sub-resources of a resource.
#[derive(Clone, Debug, PartialEq, Eq)]
pub struct Ls {
    pub resource: LsResource,
    /// The id of the parent resource.
    pub id: String,
}

/// `describe`: shows the details of one resource.
#[derive(Clone, Debug, PartialEq, Eq)]
pub struct Describe {
    pub resource: Resource,
    pub id: String,
}

/// `create-stream-consumer`: creates an event consumer group for a resource.
#[derive(Clone, Debug, PartialEq, Eq)]
pub struct CreateStreamConsumer {
    pub resource: Resource,
    pub id: String,
}

/// `event-stream`: follows the events of a consumer group.
#[derive(Clone, Debug, PartialEq, Eq)]
pub struct Stream {
    pub consumer_group_id: String,
}

/// `load`: downloads a resource to disk.
#[derive(Clone, Debug, PartialEq, Eq)]
pub struct Load {
    pub resource: Resource,
    pub id: String,
    /// The base directory of the download.
    pub path: String,
    pub path_style: DownloadPathStyle,
}

/// `create`: creates a resource from a request file.
#[derive(Clone, Debug, PartialEq, Eq)]
pub struct CreateRequest {
    pub resource: CreateResource,
    /// Path of the request file.
    pub path: String,
}

/// `update`: changes the objects of an object group from a request file.
#[derive(Clone, Debug, PartialEq, Eq)]
pub struct UpdateRequest {
    pub operation: UpdateResource,
    pub path: String,
}

#[derive(Clone, Copy, Debug, PartialEq, Eq)]
pub enum UpdateResource {
    Delete,
    Add,
}

#[derive(Clone, Copy, Debug, PartialEq, Eq)]
pub enum Resource {
    Project,
    Dataset,
    DatasetVersion,
    ObjectGroup,
}

#[derive(Clone, Copy, Debug, PartialEq, Eq)]
pub enum CreateResource {
    Dataset,
    DatasetVersion,
    ObjectGroup,
    ObjectGroupFromFile,
    Object,
}

#[derive(Clone, Copy, Debug, PartialEq, Eq)]
pub enum LsResource {
    ProjectDatasets,
    DatasetObjectGroups,
    DatasetVersions,
    DatasetVersionObjectGroups,
    DatasetObjects,
}

/// The layout of a download under its base directory.
#[derive(Clone, Copy, Debug, PartialEq, Eq)]
pub enum DownloadPathStyle {
    Canonical,
    Flat,
}

} // verus!
