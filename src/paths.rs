//! Local path layouts for downloaded objects.

use crate::model::{DatasetRef, ObjectRef};
use vstd::prelude::*;

verus! {

/// The path separator used by every layout.
pub open spec fn sep() -> char {
    '/'
}

/// `base` joined with `part`: an absolute `part` replaces `base`, an empty
/// `base` yields `part`, and otherwise exactly one separator stands between
/// the two.
pub open spec fn path_join(base: Seq<char>, part: Seq<char>) -> Seq<char> {
    if part.len() > 0 && part[0] == sep() {
        part
    } else if base.len() == 0 {
        part
    } else if base.last() == sep() {
        base + part
    } else {
        base + seq![sep()] + part
    }
}

/// Joins `part` onto `base` as a path component.
pub fn join_path(base: &str, part: &str) -> (r: String)
    ensures
        r@ == path_join(base@, part@),
{
    let plen = part.unicode_len();
    let blen = base.unicode_len();
    if plen > 0 && part.get_char(0) == '/' {
        return part.to_owned();
    }
    let mut r = base.to_owned();
    if blen > 0 && base.get_char(blen - 1) != '/' {
        r.append("/");
        proof {
            reveal_strlit("/");
        }
        assert(r@ == base@ + seq![sep()]);
    }
    r.append(part);
    r
}

} // verus!

verus! {

/// Name of the directory that holds a dataset's object groups.
pub open spec fn data_dir_name() -> Seq<char> {
    seq!['_', 'd', 'a', 't', 'a']
}

/// Name of the directory reserved for a dataset's index.
pub open spec fn index_dir_name() -> Seq<char> {
    seq!['_', 'i', 'n', 'd', 'e', 'x']
}

/// The local file name of an object: `{filename}.{filetype}`.
pub open spec fn object_file_name(object: ObjectRef) -> Seq<char> {
    object.filename@ + seq!['.'] + object.filetype@
}

fn data_dir() -> (r: &'static str)
    ensures
        r@ == data_dir_name(),
{
    proof {
        reveal_strlit("_data");
    }
    "_data"
}

fn index_dir() -> (r: &'static str)
    ensures
        r@ == index_dir_name(),
{
    proof {
        reveal_strlit("_index");
    }
    "_index"
}

/// Builds `{filename}.{filetype}` for an object.
fn file_name_of(object: &ObjectRef) -> (r: String)
    ensures
        r@ == object_file_name(*object),
{
    let mut r = object.filename.clone();
    proof {
        reveal_strlit(".");
    }
    r.append(".");
    r.append(object.filetype.as_str());
    r
}

/// A layout of downloaded data under a base directory.
pub trait DownloadPathHandler {
    /// The directory that receives the objects of one object group.
    spec fn group_path(base: Seq<char>, object: ObjectRef, group: Seq<char>) -> Seq<char>;

    /// The directory reserved for a dataset's index.
    spec fn index_path(base: Seq<char>, dataset: DatasetRef) -> Seq<char>;

    fn create_object_group_path(
        base_path: &str,
        object: &ObjectRef,
        object_group_name: String,
    ) -> (r: String)
        ensures
            r@ == Self::group_path(base_path@, *object, object_group_name@),
    ;

    fn dataset_index_path(base_path: &str, dataset: &DatasetRef) -> (r: String)
        ensures
            r@ == Self::index_path(base_path@, *dataset),
    ;

    /// The file that receives an object, inside directory `base_path`.
    fn create_file_path(base_path: &str, object: &ObjectRef) -> (r: String)
        ensures
            r@ == path_join(base_path@, object_file_name(*object)),
    ;
}

/// Mirrors the remote hierarchy:
/// `base/project_id/dataset_id/_data/group_name`.
#[derive(Debug, Clone)]
pub struct CanonicalDownloadPathHandler {}

impl DownloadPathHandler for CanonicalDownloadPathHandler {
    open spec fn group_path(base: Seq<char>, object: ObjectRef, group: Seq<char>) -> Seq<char> {
        path_join(
            path_join(path_join(path_join(base, object.project_id@), object.dataset_id@), data_dir_name()),
            group,
        )
    }

    open spec fn index_path(base: Seq<char>, dataset: DatasetRef) -> Seq<char> {
        path_join(path_join(path_join(base, dataset.project_id@), dataset.id@), index_dir_name())
    }

    fn create_object_group_path(
        base_path: &str,
        object: &ObjectRef,
        object_group_name: String,
    ) -> (r: String) {
        let p = join_path(base_path, object.project_id.as_str());
        let d = join_path(p.as_str(), object.dataset_id.as_str());
        let data = join_path(d.as_str(), data_dir());
        join_path(data.as_str(), object_group_name.as_str())
    }

    fn dataset_index_path(base_path: &str, dataset: &DatasetRef) -> (r: String) {
        let p = join_path(base_path, dataset.project_id.as_str());
        let d = join_path(p.as_str(), dataset.id.as_str());
        join_path(d.as_str(), index_dir())
    }

    fn create_file_path(base_path: &str, object: &ObjectRef) -> (r: String) {
        let name = file_name_of(object);
        join_path(base_path, name.as_str())
    }
}

/// Puts every object group directly under the base directory:
/// `base/group_name`.
#[derive(Debug, Clone)]
pub struct FlatpathDownloadManager {}

impl DownloadPathHandler for FlatpathDownloadManager {
    open spec fn group_path(base: Seq<char>, object: ObjectRef, group: Seq<char>) -> Seq<char> {
        path_join(base, group)
    }

    open spec fn index_path(base: Seq<char>, dataset: DatasetRef) -> Seq<char> {
        path_join(base, index_dir_name())
    }

    fn create_object_group_path(
        base_path: &str,
        object: &ObjectRef,
        object_group_name: String,
    ) -> (r: String) {
        join_path(base_path, object_group_name.as_str())
    }

    fn dataset_index_path(base_path: &str, dataset: &DatasetRef) -> (r: String) {
        join_path(base_path, index_dir())
    }

    fn create_file_path(base_path: &str, object: &ObjectRef) -> (r: String) {
        let name = file_name_of(object);
        join_path(base_path, name.as_str())
    }
}

} // verus!
