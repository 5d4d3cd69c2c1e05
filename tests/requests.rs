use sciobjsdb_cli::cli::UpdateResource;
use sciobjsdb_cli::config::Config;
use sciobjsdb_cli::create::{split_file_name, Create, CreateObject, CreateObjectGroup, Label};
use sciobjsdb_cli::update::{Label as UpdateLabel, Update, UpdateObjectGroup};

fn label(k: &str, v: &str) -> Label {
    Label { key: k.to_string(), value: v.to_string() }
}

#[test]
fn file_names_split_like_std_paths() {
    let cases = [
        ("a.txt", "a", Some("txt")),
        ("archive.tar.gz", "archive.tar", Some("gz")),
        ("README", "README", None),
        (".bashrc", ".bashrc", None),
        (".config.yaml", ".config", Some("yaml")),
        ("trailing.", "trailing", Some("")),
        ("", "", None),
    ];
    for (name, stem, ext) in cases {
        let (s, e) = split_file_name(name);
        assert_eq!(s, stem, "stem of {}", name);
        assert_eq!(e.as_deref(), ext, "extension of {}", name);
        let p = std::path::Path::new(name);
        if !name.is_empty() {
            assert_eq!(p.file_stem().unwrap().to_str().unwrap(), stem);
            assert_eq!(p.extension().map(|x| x.to_str().unwrap()), ext);
        }
    }
}

#[test]
fn object_request_takes_name_and_size_from_file() {
    let c = CreateObject {
        dataset_id: "d1".to_string(),
        path: "/tmp/data/reads.fastq".to_string(),
        content_len: 0,
        filename: "ignored".to_string(),
        filetype: "ignored".to_string(),
        labels: vec![label("k", "v")],
    };
    let r = Create::object_request_from_file(&c, "reads.fastq", 1234);
    assert_eq!(r.dataset_id, "d1");
    assert_eq!(r.content_len, 1234);
    assert_eq!(r.filename, "reads");
    assert_eq!(r.filetype, "fastq");
    assert_eq!(r.labels, vec![label("k", "v")]);
    let r = Create::object_request_from_file(&c, "Makefile", 1);
    assert_eq!(r.filename, "Makefile");
    assert_eq!(r.filetype, "");
}

#[test]
fn object_group_request_adds_listed_objects() {
    let mut g = CreateObjectGroup {
        name: "g".to_string(),
        dataset_id: "d1".to_string(),
        description: "desc".to_string(),
        labels: vec![label("a", "b")],
        objects_ids: Some(vec!["o1".to_string(), "o2".to_string()]),
    };
    let r = Create::object_group_request(&g);
    assert_eq!(r.dataset_id, "d1");
    assert_eq!(r.revision.name, "g");
    assert_eq!(r.revision.description, "desc");
    assert_eq!(r.revision.object_group_id, "");
    assert!(!r.revision.include_object_link);
    let u = r.revision.update_objects.unwrap();
    assert_eq!(u.add_objects, vec!["o1", "o2"]);
    assert!(u.delete_objects.is_empty());
    g.objects_ids = None;
    assert!(Create::object_group_request(&g).revision.update_objects.is_none());
}

#[test]
fn update_request_adds_or_deletes() {
    let cfg = UpdateObjectGroup {
        dataset_id: "d1".to_string(),
        name: "n".to_string(),
        description: "d".to_string(),
        objectgroup_id: "og".to_string(),
        labels: vec![UpdateLabel { key: "k".to_string(), value: "v".to_string() }],
        objects_ids: vec!["o1".to_string()],
    };
    let add = Update::revision_request(&cfg, UpdateResource::Add);
    assert_eq!(add.id, "og");
    assert_eq!(add.revision.object_group_id, "og");
    assert_eq!(add.revision.labels, vec![label("k", "v")]);
    let u = add.revision.update_objects.unwrap();
    assert_eq!(u.add_objects, vec!["o1"]);
    assert!(u.delete_objects.is_empty());
    let del = Update::revision_request(&cfg, UpdateResource::Delete);
    let u = del.revision.update_objects.unwrap();
    assert_eq!(u.delete_objects, vec!["o1"]);
    assert!(u.add_objects.is_empty());
}

#[test]
fn config_is_looked_for_under_home() {
    assert_eq!(
        Config::default_paths("/home/u"),
        vec!["/home/u/.sciobjsdb/config.yaml", "/home/u/.config/sciobjsdb/config.yaml"]
    );
}
