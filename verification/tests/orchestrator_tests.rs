use noteforge::assemble::join_pages;
use noteforge::config::Config;
use noteforge::conversion::{build_request, first_completion_text};
use noteforge::document::Document;
use noteforge::errors::ApiError;
use noteforge::orchestrator::{
    attachment_disposition, matching_pages, pdf_file_name, persist_document, plan_render,
    require_pages, single_page_file_name, ConvertParams, RenderPlan,
};
use noteforge::pdf::CompileJob;
use noteforge::roles::classify;
use noteforge::store::ArtifactStore;
use noteforge::upload::UploadBatch;

#[test]
fn stored_names_are_derived_from_the_id() {
    assert_eq!(single_page_file_name("abc"), "abc.png");
    assert_eq!(pdf_file_name("abc"), "abc.pdf");
    assert_eq!(
        attachment_disposition("abc"),
        "attachment; filename=\"abc.pdf\""
    );
}

#[test]
fn pages_are_matched_by_their_id_prefix() {
    let stems = vec![
        "doc1_0".to_string(),
        "other".to_string(),
        "doc1_1".to_string(),
        "doc10".to_string(),
    ];
    let pages = matching_pages(&stems, "doc1");
    assert_eq!(
        pages,
        vec!["doc1_0".to_string(), "doc1_1".to_string(), "doc10".to_string()]
    );
    let none = matching_pages(&stems, "doc2");
    assert!(none.is_empty());
}

#[test]
fn a_multi_page_request_without_pages_is_not_found() {
    let error = require_pages(Vec::new()).unwrap_err();
    assert!(matches!(error, ApiError::NotFound(_)));
    assert_eq!(error.status_code(), 404);
    let pages = require_pages(vec!["p".to_string()]).unwrap();
    assert_eq!(pages, vec!["p".to_string()]);
}

#[test]
fn persisting_stores_the_text_and_reports_the_record() {
    let mut store = ArtifactStore::new();
    let id = "doc-7".to_string();
    let document = persist_document(&mut store, &id, "latex body".to_string());
    assert_eq!(document.id, id);
    assert_eq!(document.filename, "doc-7.tex");
    assert_eq!(document.content, "latex body");
    assert_eq!(store.get(&id).unwrap(), "latex body");
}

#[test]
fn convert_overwrites_an_earlier_artifact_for_the_same_id() {
    let mut store = ArtifactStore::new();
    let id = "doc-8".to_string();
    persist_document(&mut store, &id, "first run".to_string());
    persist_document(&mut store, &id, "second run".to_string());
    assert_eq!(store.get(&id).unwrap(), "second run");
}

#[test]
fn a_document_record_names_its_artifact() {
    let document = Document::new(&"idx".to_string(), "content".to_string());
    assert_eq!(document.filename, "idx.tex");
}

#[test]
fn the_config_keeps_its_credential() {
    let config = Config::new("test-key".to_string());
    assert_eq!(config.claude_api_key, "test-key");
}

#[test]
fn one_png_flows_from_upload_to_pdf_bytes() {
    // Upload one PNG page.
    let mut batch = UploadBatch::new();
    let stored_name = batch.add_file(Some("image/png"), 1024).unwrap();
    let outcome = batch.finish().unwrap();
    assert!(!outcome.is_multi_page);
    assert_eq!(outcome.filenames, vec![stored_name]);
    let params = ConvertParams { is_multi_page: outcome.is_multi_page };
    assert!(!params.is_multi_page);

    // Convert: one page, one Single-role request, one fragment, one record.
    let roles = classify(1).unwrap();
    assert_eq!(roles.len(), 1);
    let request = build_request(&b"raster bytes".to_vec(), roles[0], "vision-model");
    assert!(!request.image_data.is_empty());
    let answer = vec!["\\documentclass{article}\\begin{document}1+1\\end{document}".to_string()];
    let fragment = first_completion_text(&answer).unwrap();
    let latex = join_pages(&vec![fragment]);
    let mut store = ArtifactStore::new();
    let document = persist_document(&mut store, &outcome.file_id, latex);
    assert!(!document.content.is_empty());

    // Render: the stored artifact compiles to bytes with the PDF signature.
    let source = match plan_render(&store, &outcome.file_id) {
        RenderPlan::Compile(source) => source,
        RenderPlan::Reject(_) => panic!("the stored id must be rendered"),
    };
    assert_eq!(source, document.content);
    let mut job = CompileJob::new();
    job.workspace_created(true);
    job.source_written(true);
    job.tool_finished(true, Some(b"%PDF-1.7 body".to_vec()), &String::new());
    job.workspace_removed();
    let bytes = job.deliver().unwrap();
    assert!(bytes.starts_with(b"%PDF"));
}
