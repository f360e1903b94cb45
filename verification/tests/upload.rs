use pic_od::config::Profile;
use pic_od::error::UploadError;
use pic_od::uploader::{UploadBatch, UploadOutcome, Uploader};

fn memory_profile(root: Option<&str>) -> Profile {
    let mut options = Vec::new();
    if let Some(r) = root {
        options.push(("root".to_string(), r.to_string()));
    }
    Profile {
        scheme: "memory".to_string(),
        base_url: "https://cdn.example.com".to_string(),
        filename_format: None,
        options,
    }
}

#[test]
fn unknown_scheme_is_a_backend_init_error() {
    let profile = Profile {
        scheme: "nosuchbackend".to_string(),
        base_url: "https://cdn.example.com".to_string(),
        filename_format: None,
        options: Vec::new(),
    };
    match Uploader::new(&profile) {
        Err(UploadError::BackendInitError(_)) => {},
        _ => panic!("expected BackendInitError"),
    }
}

#[test]
fn memory_backend_builds_and_reports_its_root() {
    let uploader = Uploader::new(&memory_profile(Some("/images"))).unwrap();
    assert_eq!(uploader.public_url("x.jpg"), "https://cdn.example.com/images/x.jpg");
}

#[test]
fn remote_path_uses_the_profile_template() {
    let mut profile = memory_profile(None);
    profile.filename_format = Some("pics/{name}".to_string());
    let uploader = Uploader::new(&profile).unwrap();
    assert_eq!(uploader.remote_path("/a/b/photo.jpg"), "pics/photo.jpg");
    let plain = Uploader::new(&memory_profile(None)).unwrap();
    assert_eq!(plain.remote_path("/a/b/photo.jpg"), "photo.jpg");
}

#[test]
fn batch_keeps_one_outcome_per_path_in_order() {
    let uploader = Uploader::new(&memory_profile(None)).unwrap();
    let runtime = tokio::runtime::Runtime::new().unwrap();
    let paths = vec![
        "/a/one.jpg".to_string(),
        "/a/broken.jpg".to_string(),
        "/a/two.jpg".to_string(),
    ];
    let mut batch = UploadBatch::new(paths.clone());
    while let Some(path) = batch.next_path() {
        let path = path.clone();
        // One path stands in for a file whose local read fails; the others
        // are uploaded with in-memory bytes.
        let outcome = if path.contains("broken") {
            UploadOutcome::Failure(UploadError::LocalReadError(path.clone()))
        } else {
            let remote = uploader.remote_path(&path);
            let write = runtime.block_on(uploader.operator.write(&remote, vec![1u8, 2, 3]));
            match write {
                Ok(_) => UploadOutcome::Success(uploader.public_url(&remote)),
                Err(e) => UploadOutcome::Failure(UploadError::RemoteWriteError(e.to_string())),
            }
        };
        batch.record(outcome);
    }
    assert!(batch.is_complete());
    let outcomes = batch.into_outcomes();
    assert_eq!(outcomes.len(), paths.len());
    match &outcomes[0] {
        UploadOutcome::Success(url) => assert_eq!(url, "https://cdn.example.com/one.jpg"),
        UploadOutcome::Failure(_) => panic!("first upload should succeed"),
    }
    assert!(matches!(
        &outcomes[1],
        UploadOutcome::Failure(UploadError::LocalReadError(_))
    ));
    match &outcomes[2] {
        UploadOutcome::Success(url) => assert_eq!(url, "https://cdn.example.com/two.jpg"),
        UploadOutcome::Failure(_) => panic!("third upload should succeed"),
    }
}

#[test]
fn uploaded_bytes_land_under_the_rendered_path() {
    let uploader = Uploader::new(&memory_profile(None)).unwrap();
    let runtime = tokio::runtime::Runtime::new().unwrap();
    let remote = uploader.remote_path("/a/b/photo.jpg");
    runtime
        .block_on(uploader.operator.write(&remote, vec![7u8, 8, 9]))
        .unwrap();
    let read = runtime.block_on(uploader.operator.read("photo.jpg")).unwrap();
    assert_eq!(read.to_vec(), vec![7u8, 8, 9]);
}
