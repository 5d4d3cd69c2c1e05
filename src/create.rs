//! The `create` command: the request files it reads and the requests it
//! builds from them.

use crate::client::Client;
use vstd::prelude::*;

verus! {

#[derive(Clone, Debug, PartialEq, Eq)]
pub struct Label {
    pub key: String,
    pub value: String,
}

/// Request file of `create dataset`.
#[derive(Clone, Debug, PartialEq, Eq)]
pub struct CreateDataset {
    pub name: String,
    pub project_id: String,
    pub description: String,
    pub labels: Vec<Label>,
}

/// Request file of `create dataset-version`.
#[derive(Clone, Debug, PartialEq, Eq)]
pub struct CreateDatasetVersion {
    pub name: String,
    pub dataset_id: String,
    pub description: String,
    pub labels: Vec<Label>,
    pub objects_ids: Vec<String>,
}

/// Request file of `create object-group`.
#[derive(Clone, Debug, PartialEq, Eq)]
pub struct CreateObjectGroup {
    pub name: String,
    pub dataset_id: String,
    pub description: String,
    pub labels: Vec<Label>,
    pub objects_ids: Option<Vec<String>>,
}

/// Request file of `create object`: the local files to upload as objects.
#[derive(Clone, Debug, PartialEq, Eq)]
pub struct CreateObjectBatch {
    pub objects: Vec<CreateObject>,
}

/// One local file to upload as an object.
#[derive(Clone, Debug, PartialEq, Eq)]
pub struct CreateObject {
    pub dataset_id: String,
    pub path: String,
    pub content_len: i64,
    pub filename: String,
    pub filetype: String,
    pub labels: Vec<Label>,
}

/// The objects a revision of an object group adds and removes.
#[derive(Clone, Debug, PartialEq, Eq)]
pub struct ObjectUpdates {
    pub add_objects: Vec<String>,
    pub delete_objects: Vec<String>,
}

/// A new revision of an object group.
#[derive(Clone, Debug, PartialEq, Eq)]
pub struct ObjectGroupRevision {
    /// The object group revised; empty for a new group.
    pub object_group_id: String,
    pub name: String,
    pub description: String,
    pub labels: Vec<Label>,
    pub update_objects: Option<ObjectUpdates>,
    pub include_object_link: bool,
}

/// A request to create an object group in a dataset.
#[derive(Clone, Debug, PartialEq, Eq)]
pub struct NewObjectGroup {
    pub dataset_id: String,
    pub revision: ObjectGroupRevision,
}

/// A request to register a local file as an object of a dataset.
#[derive(Clone, Debug, PartialEq, Eq)]
pub struct NewObject {
    pub dataset_id: String,
    pub content_len: u64,
    pub filename: String,
    pub filetype: String,
    pub labels: Vec<Label>,
}

/// The key/value pairs of a sequence of labels.
pub open spec fn label_pairs(v: Seq<Label>) -> Seq<(Seq<char>, Seq<char>)> {
    v.map_values(|l: Label| (l.key@, l.value@))
}

/// A copy of a list of strings.
pub fn copy_strings(v: &Vec<String>) -> (r: Vec<String>)
    ensures
        r@ == v@,
{
    let mut r: Vec<String> = Vec::new();
    let mut i: usize = 0;
    while i < v.len()
        invariant
            i <= v@.len(),
            r@ == v@.subrange(0, i as int),
        decreases v@.len() - i,
    {
        r.push(v[i].clone());
        i = i + 1;
        assert(r@ =~= v@.subrange(0, i as int));
    }
    assert(r@ =~= v@);
    r
}

/// A copy of a list of labels.
pub fn copy_labels(v: &Vec<Label>) -> (r: Vec<Label>)
    ensures
        r@ == v@,
{
    let mut r: Vec<Label> = Vec::new();
    let mut i: usize = 0;
    while i < v.len()
        invariant
            i <= v@.len(),
            r@ == v@.subrange(0, i as int),
        decreases v@.len() - i,
    {
        r.push(Label { key: v[i].key.clone(), value: v[i].value.clone() });
        i = i + 1;
        assert(r@ =~= v@.subrange(0, i as int));
    }
    assert(r@ =~= v@);
    r
}

/// Position `i` holds the last dot of `name`.
pub open spec fn is_last_dot(name: Seq<char>, i: int) -> bool {
    &&& 0 <= i < name.len()
    &&& name[i] == '.'
    &&& forall|j: int| i < j < name.len() ==> name[j] != '.'
}

/// `name` has an extension: a dot somewhere after its first character.
pub open spec fn has_extension(name: Seq<char>) -> bool {
    exists|i: int| 0 < i < name.len() && name[i] == '.'
}

/// Splits a file name into its stem and its extension: the extension is what
/// follows the last dot and the stem what precedes it. A name without a dot,
/// or whose only dot is its first character, is all stem and has no
/// extension.
pub fn split_file_name(name: &str) -> (r: (String, Option<String>))
    ensures
        r.1 is None <==> !has_extension(name@),
        r.1 is None ==> r.0@ == name@,
        r.1 matches Some(ext) ==> exists|i: int|
            is_last_dot(name@, i) && i > 0 && r.0@ == name@.subrange(0, i) && ext@ == name@.subrange(
                i + 1,
                name@.len() as int,
            ),
{
    let n = name.unicode_len();
    let mut i: usize = n;
    while i > 0
        invariant
            n == name@.len(),
            i <= n,
            forall|j: int| i <= j < n ==> name@[j] != '.',
        ensures
            i <= n,
            forall|j: int| i <= j < n ==> name@[j] != '.',
            i > 0 ==> name@[i - 1] == '.',
        decreases i,
    {
        if name.get_char(i - 1) == '.' {
            break;
        }
        i = i - 1;
    }
    if i <= 1 {
        assert(!has_extension(name@)) by {
            if has_extension(name@) {
                let j = choose|j: int| 0 < j < name@.len() && name@[j] == '.';
                assert(j >= i);
            }
        }
        (name.to_owned(), None)
    } else {
        let dot = i - 1;
        assert(is_last_dot(name@, dot as int));
        let stem = name.substring_char(0, dot).to_owned();
        let ext = name.substring_char(i, n).to_owned();
        (stem, Some(ext))
    }
}

/// Handles the `create` command.
pub struct Create {
    pub client: Client,
}

impl Create {
    pub fn new(client: Client) -> (r: Self)
        ensures
            r.client == client,
    {
        Create { client }
    }

    /// The request that creates an object group from its request file; the
    /// group starts with the listed objects, or with none when the file lists
    /// none.
    pub fn object_group_request(config: &CreateObjectGroup) -> (r: NewObjectGroup)
        ensures
            r.dataset_id@ == config.dataset_id@,
            r.revision.object_group_id@ == Seq::<char>::empty(),
            r.revision.name@ == config.name@,
            r.revision.description@ == config.description@,
            r.revision.labels@ == config.labels@,
            !r.revision.include_object_link,
            config.objects_ids is None ==> r.revision.update_objects is None,
            config.objects_ids matches Some(ids) ==> r.revision.update_objects matches Some(u) && u.add_objects@
                == ids@ && u.delete_objects@.len() == 0,
    {
        let update_objects = match &config.objects_ids {
            Some(ids) => Some(
                ObjectUpdates { add_objects: copy_strings(ids), delete_objects: Vec::new() },
            ),
            None => None,
        };
        NewObjectGroup {
            dataset_id: config.dataset_id.clone(),
            revision: ObjectGroupRevision {
                object_group_id: String::new(),
                name: config.name.clone(),
                description: config.description.clone(),
                labels: copy_labels(&config.labels),
                update_objects,
                include_object_link: false,
            },
        }
    }

    /// The request that registers a local file as an object. `file_name` is
    /// the last component of the file's path and `content_len` its size; the
    /// object's name and type are the file name's stem and extension, the
    /// type empty when there is no extension.
    pub fn object_request_from_file(
        create_object: &CreateObject,
        file_name: &str,
        content_len: u64,
    ) -> (r: NewObject)
        ensures
            r.dataset_id@ == create_object.dataset_id@,
            r.content_len == content_len,
            r.labels@ == create_object.labels@,
            !has_extension(file_name@) ==> r.filename@ == file_name@ && r.filetype@.len() == 0,
            has_extension(file_name@) ==> exists|i: int|
                is_last_dot(file_name@, i) && r.filename@ == file_name@.subrange(0, i)
                    && r.filetype@ == file_name@.subrange(i + 1, file_name@.len() as int),
    {
        let (stem, ext) = split_file_name(file_name);
        let filetype = match ext {
            Some(e) => e,
            None => String::new(),
        };
        NewObject {
            dataset_id: create_object.dataset_id.clone(),
            content_len,
            filename: stem,
            filetype,
            labels: copy_labels(&create_object.labels),
        }
    }
}

} // verus!
