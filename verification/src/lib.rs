//! Core pipeline of a service that turns page images of mathematical notes
//! into a compiled PDF through an intermediate LaTeX document.
//!
//! The library holds the verified logic of that pipeline: classifying the
//! pages of a submission into structural roles, building the conversion
//! request for each page, stitching the converted fragments into one LaTeX
//! document, keeping the per-document artifact store, validating uploads,
//! and driving the compile workspace through its lifecycle. The surrounding
//! HTTP, filesystem and subprocess plumbing lives outside the library and
//! only hands plain values in and out.

pub mod assemble;
pub mod config;
pub mod conversion;
pub mod document;
pub mod errors;
pub mod orchestrator;
pub mod pdf;
pub mod roles;
pub mod store;
pub mod text;
pub mod upload;
