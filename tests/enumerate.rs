use sciobjsdb_cli::cli::Resource;
use sciobjsdb_cli::enumerate::{
    group_messages, page_messages, EnumerateError, ListRequest, ResourceEnumerator,
    DATASET_OBJECT_GROUP_PAGE_SIZE,
};
use sciobjsdb_cli::model::{GroupListing, ObjectDownloadMessage, ObjectRef};
use std::collections::HashMap;

fn obj(id: &str, dataset: &str) -> ObjectRef {
    ObjectRef {
        id: id.to_string(),
        project_id: "p1".to_string(),
        dataset_id: dataset.to_string(),
        filename: id.to_string(),
        filetype: "bin".to_string(),
        content_len: Some(1),
    }
}

fn group(name: &str, ids: &[&str], dataset: &str) -> GroupListing {
    GroupListing { name: name.to_string(), objects: ids.iter().map(|i| obj(i, dataset)).collect() }
}

/// Runs an enumeration against fixed answers: datasets of the project, and
/// for each dataset its pages in order. Returns the messages and the number
/// of page requests made per dataset.
fn drive(
    mut en: ResourceEnumerator,
    datasets: &[&str],
    pages: &HashMap<String, Vec<Vec<GroupListing>>>,
    single: Option<GroupListing>,
) -> (Vec<ObjectDownloadMessage>, HashMap<String, usize>, Vec<String>) {
    let mut out = Vec::new();
    let mut calls: HashMap<String, usize> = HashMap::new();
    let mut cursors = Vec::new();
    while let Some(req) = en.next_request() {
        match req {
            ListRequest::ProjectDatasets { project_id } => {
                assert_eq!(project_id, "p1");
                en.on_datasets(datasets.iter().map(|d| d.to_string()).collect()).unwrap();
            }
            ListRequest::DatasetObjectGroups { dataset_id, page_request } => {
                cursors.push(page_request.last_uuid.clone());
                let n = calls.entry(dataset_id.clone()).or_insert(0);
                let page = pages[&dataset_id].get(*n).cloned().unwrap_or_default();
                *n += 1;
                out.extend(en.on_page(&page).unwrap());
            }
            ListRequest::ObjectGroup { .. } => {
                out.extend(en.on_group(single.as_ref().unwrap()).unwrap());
            }
        }
        assert!(*calls.values().max().unwrap_or(&0) < 100, "pagination did not stop");
    }
    assert!(en.is_done());
    (out, calls, cursors)
}

#[test]
fn full_pages_then_empty_take_one_more_call() {
    let mut pages = HashMap::new();
    pages.insert(
        "d1".to_string(),
        vec![
            vec![group("g1", &["a"], "d1"), group("g2", &["b"], "d1")],
            vec![group("g3", &["c"], "d1"), group("g4", &[], "d1")],
            vec![],
        ],
    );
    let en = ResourceEnumerator::with_page_size(Resource::Dataset, "d1".to_string(), 2).unwrap();
    let (out, calls, cursors) = drive(en, &[], &pages, None);
    assert_eq!(calls["d1"], 3);
    assert_eq!(out.len(), 3);
    assert_eq!(cursors, vec!["", "b", "c"]);
    assert_eq!(out[2].object.id, "c");
    assert_eq!(out[2].object_group_name, "g3");
}

#[test]
fn short_page_ends_listing() {
    let mut pages = HashMap::new();
    pages.insert(
        "d1".to_string(),
        vec![vec![group("g1", &["a"], "d1"), group("g2", &["b"], "d1")], vec![group("g3", &["c"], "d1")]],
    );
    let en = ResourceEnumerator::with_page_size(Resource::Dataset, "d1".to_string(), 2).unwrap();
    let (out, calls, _) = drive(en, &[], &pages, None);
    assert_eq!(calls["d1"], 2);
    let ids: Vec<_> = out.iter().map(|m| m.object.id.as_str()).collect();
    assert_eq!(ids, vec!["a", "b", "c"]);
}

#[test]
fn project_emits_every_dataset_object_once() {
    let mut pages = HashMap::new();
    pages.insert(
        "d1".to_string(),
        vec![vec![group("g1", &["a", "b"], "d1"), group("g2", &["c"], "d1")], vec![]],
    );
    pages.insert("d2".to_string(), vec![vec![group("g3", &["x", "y"], "d2")]]);
    let en = ResourceEnumerator::with_page_size(Resource::Project, "p1".to_string(), 2).unwrap();
    let (out, calls, _) = drive(en, &["d1", "d2"], &pages, None);
    assert_eq!(calls["d1"], 2);
    assert_eq!(calls["d2"], 1);
    let ids: Vec<_> = out.iter().map(|m| (m.object.dataset_id.as_str(), m.object.id.as_str())).collect();
    assert_eq!(ids, vec![("d1", "a"), ("d1", "b"), ("d1", "c"), ("d2", "x"), ("d2", "y")]);
}

#[test]
fn project_without_datasets_is_done_at_once() {
    let en = ResourceEnumerator::new(Resource::Project, "p1".to_string()).unwrap();
    let (out, calls, _) = drive(en, &[], &HashMap::new(), None);
    assert!(out.is_empty());
    assert!(calls.is_empty());
}

#[test]
fn object_group_is_listed_once_without_paging() {
    let en = ResourceEnumerator::new(Resource::ObjectGroup, "g1".to_string()).unwrap();
    let (out, calls, _) = drive(en, &[], &HashMap::new(), Some(group("g1", &["a", "b"], "d1")));
    assert!(calls.is_empty());
    assert_eq!(out.len(), 2);
    assert!(out.iter().all(|m| m.object_group_name == "g1"));
}

#[test]
fn default_page_size_is_five_hundred() {
    assert_eq!(DATASET_OBJECT_GROUP_PAGE_SIZE, 500);
    let en = ResourceEnumerator::new(Resource::Dataset, "d1".to_string()).unwrap();
    match en.next_request() {
        Some(ListRequest::DatasetObjectGroups { dataset_id, page_request }) => {
            assert_eq!(dataset_id, "d1");
            assert_eq!(page_request.page_size, 500);
            assert_eq!(page_request.last_uuid, "");
        }
        other => panic!("unexpected request {:?}", other),
    }
}

#[test]
fn dataset_versions_are_not_enumerated() {
    assert_eq!(
        ResourceEnumerator::new(Resource::DatasetVersion, "v1".to_string()).err(),
        Some(EnumerateError::UnsupportedResource)
    );
}

#[test]
fn answer_of_wrong_kind_is_refused() {
    let mut en = ResourceEnumerator::new(Resource::ObjectGroup, "g1".to_string()).unwrap();
    assert_eq!(en.on_page(&vec![]).err(), Some(EnumerateError::UnexpectedResponse));
    assert_eq!(en.on_datasets(vec![]).err(), Some(EnumerateError::UnexpectedResponse));
    assert!(!en.is_done());
    let mut en = ResourceEnumerator::new(Resource::Dataset, "d1".to_string()).unwrap();
    assert_eq!(
        en.on_group(&group("g", &[], "d1")).err(),
        Some(EnumerateError::UnexpectedResponse)
    );
}

#[test]
fn page_messages_keep_order_and_cursor() {
    let page = vec![group("g1", &["a"], "d1"), group("g2", &[], "d1"), group("g3", &["b", "c"], "d1")];
    let (msgs, cursor) = page_messages(&page, &"prev".to_string());
    let ids: Vec<_> = msgs.iter().map(|m| (m.object_group_name.as_str(), m.object.id.as_str())).collect();
    assert_eq!(ids, vec![("g1", "a"), ("g3", "b"), ("g3", "c")]);
    assert_eq!(cursor, "c");
    let (msgs, cursor) = page_messages(&vec![group("g", &[], "d1")], &"prev".to_string());
    assert!(msgs.is_empty());
    assert_eq!(cursor, "prev");
    assert_eq!(group_messages(&group("g", &["z"], "d1"))[0].object, obj("z", "d1"));
}

/// Feeds an enumeration through a bounded queue of the given capacity while a
/// consumer drains it, and returns what the consumer received.
fn through_queue(capacity: usize, datasets: &[&str], pages: &HashMap<String, Vec<Vec<GroupListing>>>) -> Vec<(String, String)> {
    let (sender, receiver) = async_channel::bounded::<ObjectDownloadMessage>(capacity);
    let mut en = ResourceEnumerator::with_page_size(Resource::Project, "p1".to_string(), 2).unwrap();
    let producer = async move {
        let mut calls: HashMap<String, usize> = HashMap::new();
        while let Some(req) = en.next_request() {
            let msgs = match req {
                ListRequest::ProjectDatasets { .. } => {
                    en.on_datasets(datasets.iter().map(|d| d.to_string()).collect()).unwrap();
                    Vec::new()
                }
                ListRequest::DatasetObjectGroups { dataset_id, .. } => {
                    let n = calls.entry(dataset_id.clone()).or_insert(0);
                    let page = pages[&dataset_id].get(*n).cloned().unwrap_or_default();
                    *n += 1;
                    en.on_page(&page).unwrap()
                }
                ListRequest::ObjectGroup { .. } => unreachable!(),
            };
            for m in msgs {
                sender.send(m).await.unwrap();
            }
        }
    };
    let consumer = async move {
        let mut got = Vec::new();
        while let Ok(m) = receiver.recv().await {
            got.push((m.object.dataset_id, m.object.id));
        }
        got
    };
    let ((), got) = futures::executor::block_on(futures::future::join(producer, consumer));
    got
}

#[test]
fn project_delivery_is_complete_for_any_queue_capacity() {
    let mut pages = HashMap::new();
    pages.insert(
        "d1".to_string(),
        vec![
            vec![group("g1", &["a", "b", "c"], "d1"), group("g2", &["d"], "d1")],
            vec![group("g3", &["e"], "d1"), group("g4", &["f", "g"], "d1")],
            vec![group("g5", &["h"], "d1")],
        ],
    );
    pages.insert(
        "d2".to_string(),
        vec![vec![group("g6", &["x", "y"], "d2"), group("g7", &[], "d2")], vec![]],
    );
    let mut expected: Vec<(String, String)> = ["a", "b", "c", "d", "e", "f", "g", "h"]
        .iter()
        .map(|i| ("d1".to_string(), i.to_string()))
        .chain(["x", "y"].iter().map(|i| ("d2".to_string(), i.to_string())))
        .collect();
    expected.sort();
    for capacity in [1usize, 10, 500] {
        let mut got = through_queue(capacity, &["d1", "d2"], &pages);
        got.sort();
        assert_eq!(got, expected, "capacity {}", capacity);
    }
}
