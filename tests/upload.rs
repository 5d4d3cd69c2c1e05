use sciobjsdb_cli::upload::{upload_mode, MultipartUpload, UploadMode, UPLOAD_BUFFER_SIZE};

/// Drives an upload to its end; returns the chunk lengths read and the
/// part numbers of the finished manifest.
fn run(size: u64) -> (Vec<u64>, Vec<u64>, Vec<String>) {
    let mut up = MultipartUpload::new("obj".to_string(), size);
    let mut lens = Vec::new();
    while let Some(c) = up.next_chunk() {
        assert_eq!(c.part_number, lens.len() as u64 + 1);
        lens.push(c.len);
        up.record_part(format!("etag-{}", c.part_number));
    }
    assert!(up.is_complete());
    assert_eq!(up.remaining(), 0);
    let parts = up.into_parts().expect("complete upload has a manifest");
    let numbers = parts.iter().map(|p| p.part_number).collect();
    let etags = parts.iter().map(|p| p.etag.clone()).collect();
    (lens, numbers, etags)
}

#[test]
fn small_files_take_single_shot_path() {
    assert_eq!(upload_mode(0), UploadMode::Single);
    assert_eq!(upload_mode(1), UploadMode::Single);
    assert_eq!(upload_mode(UPLOAD_BUFFER_SIZE - 1), UploadMode::Single);
    assert_eq!(upload_mode(UPLOAD_BUFFER_SIZE), UploadMode::Multipart);
    assert_eq!(upload_mode(UPLOAD_BUFFER_SIZE * 3 + 7), UploadMode::Multipart);
}

#[test]
fn part_size_is_five_mebibytes() {
    assert_eq!(UPLOAD_BUFFER_SIZE, 5 * 1024 * 1024);
}

#[test]
fn exact_multiple_splits_into_full_parts() {
    let (lens, numbers, _) = run(UPLOAD_BUFFER_SIZE * 2);
    assert_eq!(lens, vec![UPLOAD_BUFFER_SIZE, UPLOAD_BUFFER_SIZE]);
    assert_eq!(numbers, vec![1, 2]);
}

#[test]
fn remainder_goes_into_last_part() {
    let size = UPLOAD_BUFFER_SIZE * 3 + 5;
    let (lens, numbers, etags) = run(size);
    assert_eq!(lens, vec![UPLOAD_BUFFER_SIZE, UPLOAD_BUFFER_SIZE, UPLOAD_BUFFER_SIZE, 5]);
    assert_eq!(lens.iter().sum::<u64>(), size);
    assert_eq!(numbers, vec![1, 2, 3, 4]);
    assert_eq!(etags, vec!["etag-1", "etag-2", "etag-3", "etag-4"]);
}

#[test]
fn part_count_is_size_over_chunk_rounded_up() {
    for size in [1u64, UPLOAD_BUFFER_SIZE - 1, UPLOAD_BUFFER_SIZE, UPLOAD_BUFFER_SIZE + 1, 7 * UPLOAD_BUFFER_SIZE - 3] {
        let (lens, numbers, _) = run(size);
        let expected = (size + UPLOAD_BUFFER_SIZE - 1) / UPLOAD_BUFFER_SIZE;
        assert_eq!(lens.len() as u64, expected);
        assert_eq!(lens.iter().sum::<u64>(), size);
        assert_eq!(numbers, (1..=expected).collect::<Vec<u64>>());
        assert!(numbers.windows(2).all(|w| w[0] < w[1]));
    }
}

#[test]
fn empty_file_has_no_parts() {
    let (lens, numbers, _) = run(0);
    assert!(lens.is_empty());
    assert!(numbers.is_empty());
}

#[test]
fn incomplete_upload_has_no_manifest() {
    let mut up = MultipartUpload::new("obj".to_string(), UPLOAD_BUFFER_SIZE + 1);
    assert_eq!(up.object_id(), "obj");
    assert_eq!(up.size(), UPLOAD_BUFFER_SIZE + 1);
    up.record_part("e1".to_string());
    assert_eq!(up.remaining(), 1);
    assert!(!up.is_complete());
    assert!(up.into_parts().is_none());
}
