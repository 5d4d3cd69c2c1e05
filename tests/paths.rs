use sciobjsdb_cli::cli::DownloadPathStyle;
use sciobjsdb_cli::download::DownloadHandler;
use sciobjsdb_cli::model::{DatasetRef, ObjectRef};
use sciobjsdb_cli::paths::{
    join_path, CanonicalDownloadPathHandler, DownloadPathHandler, FlatpathDownloadManager,
};

fn object() -> ObjectRef {
    ObjectRef {
        id: "o1".to_string(),
        project_id: "p1".to_string(),
        dataset_id: "d1".to_string(),
        filename: "a".to_string(),
        filetype: "txt".to_string(),
        content_len: None,
    }
}

#[test]
fn canonical_layout_resolves_full_hierarchy() {
    let o = object();
    let dir = CanonicalDownloadPathHandler::create_object_group_path("/out", &o, "g1".to_string());
    assert_eq!(dir, "/out/p1/d1/_data/g1");
    let file = CanonicalDownloadPathHandler::create_file_path(&dir, &o);
    assert_eq!(file, "/out/p1/d1/_data/g1/a.txt");
}

#[test]
fn flat_layout_resolves_group_under_base() {
    let o = object();
    let dir = FlatpathDownloadManager::create_object_group_path("/out", &o, "g1".to_string());
    assert_eq!(dir, "/out/g1");
    let file = FlatpathDownloadManager::create_file_path(&dir, &o);
    assert_eq!(file, "/out/g1/a.txt");
}

#[test]
fn index_paths_of_both_layouts() {
    let d = DatasetRef { id: "d1".to_string(), project_id: "p1".to_string() };
    assert_eq!(CanonicalDownloadPathHandler::dataset_index_path("/out", &d), "/out/p1/d1/_index");
    assert_eq!(FlatpathDownloadManager::dataset_index_path("/out", &d), "/out/_index");
}

#[test]
fn download_target_follows_style() {
    let o = object();
    let t = DownloadHandler::target_for_style(DownloadPathStyle::Canonical, "/out", &o, "g1".to_string());
    assert_eq!(t.directory, "/out/p1/d1/_data/g1");
    assert_eq!(t.file, "/out/p1/d1/_data/g1/a.txt");
    let t = DownloadHandler::target_for_style(DownloadPathStyle::Flat, "/out", &o, "g1".to_string());
    assert_eq!(t.directory, "/out/g1");
    assert_eq!(t.file, "/out/g1/a.txt");
    let t = DownloadHandler::download_target::<FlatpathDownloadManager>("out/", &o, "g2".to_string());
    assert_eq!(t.file, "out/g2/a.txt");
}

#[test]
fn join_handles_separators_and_absolute_parts() {
    assert_eq!(join_path("/out", "x"), "/out/x");
    assert_eq!(join_path("/out/", "x"), "/out/x");
    assert_eq!(join_path("", "x"), "x");
    assert_eq!(join_path("/out", "/abs"), "/abs");
    assert_eq!(join_path("/out", ""), "/out/");
}
