//! Where the download workers put each object.

use crate::cli::DownloadPathStyle;
use crate::model::ObjectRef;
use crate::paths::{
    object_file_name, path_join, CanonicalDownloadPathHandler, DownloadPathHandler,
    FlatpathDownloadManager,
};
use vstd::prelude::*;

verus! {

/// Number of download workers that drain the queue.
pub const DOWNLOAD_WORKER_COUNT: usize = 10;

/// Capacity of the queue between the enumeration and the workers.
pub const OBJECT_GROUP_DOWNLOAD_REQUEST_QUEUE_SIZE: usize = 500;

/// The directory to create and the file to write for one object.
#[derive(Clone, Debug, PartialEq, Eq)]
pub struct DownloadTarget {
    pub directory: String,
    pub file: String,
}

/// Plans the downloads of the `load` command.
pub struct DownloadHandler {}

impl DownloadHandler {
    /// The target of an object of group `object_group_name` under
    /// `base_path`, in the layout `T`.
    pub fn download_target<T: DownloadPathHandler>(
        base_path: &str,
        object: &ObjectRef,
        object_group_name: String,
    ) -> (r: DownloadTarget)
        ensures
            r.directory@ == T::group_path(base_path@, *object, object_group_name@),
            r.file@ == path_join(r.directory@, object_file_name(*object)),
    {
        let directory = T::create_object_group_path(base_path, object, object_group_name);
        let file = T::create_file_path(directory.as_str(), object);
        DownloadTarget { directory, file }
    }

    /// The target of an object in the layout that `style` names.
    pub fn target_for_style(
        style: DownloadPathStyle,
        base_path: &str,
        object: &ObjectRef,
        object_group_name: String,
    ) -> (r: DownloadTarget)
        ensures
            style == DownloadPathStyle::Canonical ==> r.directory@
                == CanonicalDownloadPathHandler::group_path(
                base_path@,
                *object,
                object_group_name@,
            ),
            style == DownloadPathStyle::Flat ==> r.directory@ == FlatpathDownloadManager::group_path(
                base_path@,
                *object,
                object_group_name@,
            ),
            r.file@ == path_join(r.directory@, object_file_name(*object)),
    {
        match style {
            DownloadPathStyle::Canonical => Self::download_target::<CanonicalDownloadPathHandler>(
                base_path,
                object,
                object_group_name,
            ),
            DownloadPathStyle::Flat => Self::download_target::<FlatpathDownloadManager>(
                base_path,
                object,
                object_group_name,
            ),
        }
    }
}

} // verus!
