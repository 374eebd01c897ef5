use pcloud::routes::file_routes::{
    content_disposition, file_deleted, file_not_found, storage_failure, UploadTracker, UPLOAD_DIR,
};
use pcloud::status::{BAD_REQUEST, CREATED, INTERNAL_SERVER_ERROR, NOT_FOUND, OK};

#[test]
fn test_upload_file() {
    let test_file_name = "test_upload.txt";
    let mut tracker = UploadTracker::new();
    assert_eq!(tracker.on_field(Some(test_file_name)), Some(test_file_name.to_string()));
    let (status, text) = tracker.finish().expect("a file was uploaded");
    assert_eq!(status, CREATED);
    assert_eq!(text, format!("File \'{}\' uploaded successfully.", test_file_name));
}

#[test]
fn test_delete_file() {
    let test_file_name = "test_delete.txt";
    let (status, text) = file_deleted(test_file_name);
    assert_eq!(status, OK);
    assert_eq!(text, format!("File \'{}\' deleted successfully.", test_file_name));
}

#[test]
fn upload_without_a_file_field_is_a_bad_request() {
    let mut tracker = UploadTracker::new();
    assert_eq!(tracker.on_field(None), None);
    let (status, text) = tracker.finish().unwrap_err();
    assert_eq!(status, BAD_REQUEST);
    assert_eq!(text, "No file uploaded");
}

#[test]
fn upload_reply_names_the_last_file() {
    let mut tracker = UploadTracker::new();
    tracker.on_field(Some("a.txt"));
    tracker.on_field(None);
    tracker.on_field(Some("b.txt"));
    let (_, text) = tracker.finish().unwrap();
    assert_eq!(text, "File 'b.txt' uploaded successfully.");
}

#[test]
fn upload_with_an_empty_file_name_is_a_bad_request() {
    let mut tracker = UploadTracker::new();
    assert_eq!(tracker.on_field(Some("")), Some(String::new()));
    assert_eq!(tracker.finish().unwrap_err().0, BAD_REQUEST);
}

#[test]
fn missing_file_and_failures_are_reported() {
    assert_eq!(file_not_found("nope.txt"), (NOT_FOUND, "File not found: nope.txt".to_string()));
    assert_eq!(
        storage_failure("delete file", "permission denied"),
        (INTERNAL_SERVER_ERROR, "Failed to delete file: permission denied".to_string())
    );
    assert_eq!(content_disposition("x.bin"), "attachment; filename=\"x.bin\"");
    assert_eq!(UPLOAD_DIR, "pcloud_files");
}
