//! The `update` command: adds objects to, or removes them from, an object
//! group by creating a new revision of it.

use crate::cli::UpdateResource;
use crate::client::Client;
use crate::create::{copy_strings, ObjectGroupRevision, ObjectUpdates};
use vstd::prelude::*;

verus! {

#[derive(Clone, Debug, PartialEq, Eq)]
pub struct Label {
    pub key: String,
    pub value: String,
}

/// Request file of `update`.
#[derive(Clone, Debug, PartialEq, Eq)]
pub struct UpdateObjectGroup {
    pub dataset_id: String,
    pub name: String,
    pub description: String,
    pub objectgroup_id: String,
    pub labels: Vec<Label>,
    pub objects_ids: Vec<String>,
}

/// A request to revise object group `id`.
#[derive(Clone, Debug, PartialEq, Eq)]
pub struct ObjectGroupUpdate {
    pub id: String,
    pub revision: ObjectGroupRevision,
}

/// The key/value pairs of a sequence of labels.
pub open spec fn label_pairs(v: Seq<Label>) -> Seq<(Seq<char>, Seq<char>)> {
    v.map_values(|l: Label| (l.key@, l.value@))
}

/// Handles the `update` command.
pub struct Update {
    pub client: Client,
}

impl Update {
    pub fn new(client: Client) -> (r: Self)
        ensures
            r.client == client,
    {
        Update { client }
    }

    /// The revision request for an `update` request file: the listed objects
    /// are added with `Add` and deleted with `Delete`.
    pub fn revision_request(config: &UpdateObjectGroup, operation: UpdateResource) -> (r:
        ObjectGroupUpdate)
        ensures
            r.id@ == config.objectgroup_id@,
            r.revision.object_group_id@ == config.objectgroup_id@,
            r.revision.name@ == config.name@,
            r.revision.description@ == config.description@,
            crate::create::label_pairs(r.revision.labels@) == label_pairs(config.labels@),
            !r.revision.include_object_link,
            r.revision.update_objects matches Some(u) && (operation == UpdateResource::Add ==> (
            u.add_objects@ == config.objects_ids@ && u.delete_objects@.len() == 0)) && (operation
                == UpdateResource::Delete ==> (u.delete_objects@ == config.objects_ids@
                && u.add_objects@.len() == 0)),
    {
        let ids = copy_strings(&config.objects_ids);
        let updates = match operation {
            UpdateResource::Add => ObjectUpdates { add_objects: ids, delete_objects: Vec::new() },
            UpdateResource::Delete => ObjectUpdates {
                add_objects: Vec::new(),
                delete_objects: ids,
            },
        };
        let mut labels: Vec<crate::create::Label> = Vec::new();
        let mut i: usize = 0;
        while i < config.labels.len()
            invariant
                i <= config.labels@.len(),
                labels@.len() == i,
                crate::create::label_pairs(labels@) == label_pairs(config.labels@).subrange(
                    0,
                    i as int,
                ),
            decreases config.labels@.len() - i,
        {
            let l = &config.labels[i];
            let ghost prev = labels@;
            labels.push(crate::create::Label { key: l.key.clone(), value: l.value.clone() });
            assert(crate::create::label_pairs(labels@)[i as int] == label_pairs(
                config.labels@,
            )[i as int]);
            i = i + 1;
            assert(crate::create::label_pairs(labels@) =~= label_pairs(config.labels@).subrange(
                0,
                i as int,
            ));
        }
        assert(label_pairs(config.labels@).subrange(0, i as int) =~= label_pairs(config.labels@));
        ObjectGroupUpdate {
            id: config.objectgroup_id.clone(),
            revision: ObjectGroupRevision {
                object_group_id: config.objectgroup_id.clone(),
                name: config.name.clone(),
                description: config.description.clone(),
                labels,
                update_objects: Some(updates),
                include_object_link: false,
            },
        }
    }
}

} // verus!
