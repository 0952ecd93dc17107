use noteforge::errors::ApiError;
use noteforge::upload::{mime_to_extension, UploadBatch, MAX_FILES, MAX_FILE_SIZE};

#[test]
fn extensions_of_the_allowed_types() {
    assert_eq!(mime_to_extension("image/jpeg"), Some("jpg"));
    assert_eq!(mime_to_extension("image/png"), Some("png"));
    assert_eq!(mime_to_extension("image/webp"), Some("webp"));
    assert_eq!(mime_to_extension("image/gif"), None);
    assert_eq!(mime_to_extension("application/pdf"), None);
    assert_eq!(mime_to_extension(""), None);
}

#[test]
fn upload_rejects_a_type_outside_the_allow_list() {
    let mut batch = UploadBatch::new();
    let error = batch.add_file(Some("image/gif"), 100).unwrap_err();
    assert!(matches!(error, ApiError::ValidationError(_)));
    assert_eq!(error.status_code(), 400);
}

#[test]
fn upload_rejects_a_missing_content_type() {
    let mut batch = UploadBatch::new();
    let error = batch.add_file(None, 100).unwrap_err();
    assert!(matches!(error, ApiError::ValidationError(_)));
    assert_eq!(error.status_code(), 400);
}

#[test]
fn upload_rejects_an_oversized_file() {
    let mut batch = UploadBatch::new();
    let error = batch.add_file(Some("image/png"), MAX_FILE_SIZE + 1).unwrap_err();
    assert!(matches!(error, ApiError::ValidationError(_)));
    let ok = batch.add_file(Some("image/png"), MAX_FILE_SIZE);
    assert!(ok.is_ok());
}

#[test]
fn upload_accepts_up_to_the_maximum_and_rejects_the_next() {
    let mut batch = UploadBatch::new();
    for _ in 0..MAX_FILES {
        batch.add_file(Some("image/png"), 10).unwrap();
    }
    let error = batch.add_file(Some("image/png"), 10).unwrap_err();
    assert!(matches!(error, ApiError::ValidationError(_)));
    assert_eq!(error.status_code(), 400);
}

#[test]
fn first_file_of_a_single_page_batch_is_named_by_the_id_alone() {
    let mut batch = UploadBatch::new();
    let id = batch.id().clone();
    assert_eq!(id.len(), 36);
    let name = batch.add_file(Some("image/png"), 10).unwrap();
    assert_eq!(name, format!("{}.png", id));
}

#[test]
fn files_of_a_multi_page_batch_carry_sequence_numbers() {
    let mut batch = UploadBatch::new();
    batch.set_multi_page("true");
    let id = batch.id().clone();
    let first = batch.add_file(Some("image/jpeg"), 10).unwrap();
    let second = batch.add_file(Some("image/webp"), 10).unwrap();
    assert_eq!(first, format!("{}_0.jpg", id));
    assert_eq!(second, format!("{}_1.webp", id));
}

#[test]
fn a_second_file_gets_a_sequence_number_even_without_the_flag() {
    let mut batch = UploadBatch::new();
    let id = batch.id().clone();
    let first = batch.add_file(Some("image/png"), 10).unwrap();
    let second = batch.add_file(Some("image/png"), 10).unwrap();
    assert_eq!(first, format!("{}.png", id));
    assert_eq!(second, format!("{}_1.png", id));
}

#[test]
fn the_multi_page_flag_is_read_from_the_field_value() {
    let mut batch = UploadBatch::new();
    batch.set_multi_page("false");
    batch.add_file(Some("image/png"), 10).unwrap();
    let outcome = batch.finish().unwrap();
    assert!(!outcome.is_multi_page);

    let mut flagged = UploadBatch::new();
    flagged.set_multi_page("true");
    flagged.add_file(Some("image/png"), 10).unwrap();
    let outcome = flagged.finish().unwrap();
    assert!(outcome.is_multi_page);
}

#[test]
fn a_batch_with_no_files_is_rejected() {
    let batch = UploadBatch::new();
    let error = batch.finish().unwrap_err();
    assert!(matches!(error, ApiError::ValidationError(_)));
}

#[test]
fn a_batch_with_two_files_reports_multi_page() {
    let mut batch = UploadBatch::new();
    let id = batch.id().clone();
    batch.add_file(Some("image/png"), 10).unwrap();
    batch.add_file(Some("image/png"), 10).unwrap();
    let outcome = batch.finish().unwrap();
    assert_eq!(outcome.file_id, id);
    assert_eq!(outcome.filenames.len(), 2);
    assert!(outcome.is_multi_page);
}
