//! Validation and naming of one upload batch.
//!
//! One batch carries up to a fixed number of raster page images, each with
//! a declared media type from a fixed allow-list and bounded in size, plus
//! an optional flag that signals multi-page intent. Every accepted file
//! gets a name derived from the batch's fresh identifier; a batch with no
//! accepted file is rejected.

use vstd::prelude::*;

use crate::errors::ApiError;
use crate::text::{digit_str, spec_digit_char, str_eq};

verus! {

/// The largest accepted file size, in bytes.
pub const MAX_FILE_SIZE: usize = 10 * 1024 * 1024;

/// The largest accepted number of files in one batch.
pub const MAX_FILES: usize = 5;

/// Whether a declared media type is on the allow-list of raster image types.
pub open spec fn allowed_media_type(media_type: Seq<char>) -> bool {
    ||| media_type == "image/jpeg"@
    ||| media_type == "image/png"@
    ||| media_type == "image/webp"@
}

/// The filename extension used for an allowed media type.
pub open spec fn spec_extension(media_type: Seq<char>) -> Seq<char> {
    if media_type == "image/jpeg"@ {
        "jpg"@
    } else if media_type == "image/png"@ {
        "png"@
    } else {
        "webp"@
    }
}

/// The filename extension for a declared media type, or nothing when the
/// type is outside the allow-list.
pub fn mime_to_extension(content_type: &str) -> (extension: Option<&str>)
    ensures
        extension is Some <==> allowed_media_type(content_type@),
        extension is Some ==> extension->0@ == spec_extension(content_type@),
{
    if str_eq(content_type, "image/jpeg") {
        Some("jpg")
    } else if str_eq(content_type, "image/png") {
        Some("png")
    } else if str_eq(content_type, "image/webp") {
        Some("webp")
    } else {
        None
    }
}

/// The name stored for the file at position `prior` of a batch: the batch
/// identifier alone for the first file of a single-page batch, and the
/// identifier with the file's sequence number for every file of a
/// multi-page batch or any file after the first.
pub open spec fn spec_upload_filename(
    id: Seq<char>,
    multi_page: bool,
    prior: int,
    extension: Seq<char>,
) -> Seq<char> {
    if multi_page || prior >= 1 {
        id + "_"@ + seq![spec_digit_char(prior)] + "."@ + extension
    } else {
        id + "."@ + extension
    }
}

/// Relies on `uuid::Uuid::new_v4` and its hyphenated `Display` rendering:
/// a freshly drawn random identifier, always 36 characters long.
#[verifier::external_body]
pub(crate) fn fresh_document_id() -> (id: String)
    ensures
        id@.len() == 36,
{
    uuid::Uuid::new_v4().to_string()
}

/// What a finished upload batch reports back: the shared identifier, the
/// stored filenames in arrival order, and whether the batch is multi-page.
#[derive(Debug)]
pub struct UploadOutcome {
    pub file_id: String,
    pub filenames: Vec<String>,
    pub is_multi_page: bool,
}

/// One upload batch being validated, file by file.
pub struct UploadBatch {
    id: String,
    filenames: Vec<String>,
    multi_page: bool,
}

impl UploadBatch {
    /// The batch's fresh identifier.
    pub closed spec fn id_view(&self) -> Seq<char> {
        self.id@
    }

    /// The names of the files accepted so far, in arrival order.
    pub closed spec fn filenames_view(&self) -> Seq<Seq<char>> {
        self.filenames@.map_values(|f: String| f@)
    }

    /// Whether the client has flagged the batch as multi-page.
    pub closed spec fn multi_page_flag(&self) -> bool {
        self.multi_page
    }

    /// Opens a batch under a fresh identifier, with no files yet and the
    /// multi-page flag off.
    pub fn new() -> (batch: UploadBatch)
        ensures
            batch.filenames_view() == Seq::<Seq<char>>::empty(),
            !batch.multi_page_flag(),
            batch.id_view().len() == 36,
    {
        let batch = UploadBatch { id: fresh_document_id(), filenames: Vec::new(), multi_page: false };
        proof {
            assert(batch.filenames_view() =~= Seq::<Seq<char>>::empty());
        }
        batch
    }

    /// The batch's identifier.
    pub fn id(&self) -> (id: &String)
        ensures
            id@ == self.id_view(),
    {
        &self.id
    }

    /// Records the client's multi-page field: the flag is set exactly when
    /// the field's value is the word `true`.
    pub fn set_multi_page(&mut self, value: &str)
        ensures
            final(self).multi_page_flag() == (value@ == "true"@),
            final(self).id_view() == old(self).id_view(),
            final(self).filenames_view() == old(self).filenames_view(),
    {
        self.multi_page = str_eq(value, "true");
    }

    /// Validates one file field and, when accepted, records its name.
    ///
    /// A file is accepted exactly when the batch is not already full, a
    /// media type was declared, that type is on the allow-list, and the
    /// file is within the size bound; every rejection is a validation
    /// error and leaves the batch unchanged.
    pub fn add_file(&mut self, content_type: Option<&str>, size: usize) -> (outcome: Result<
        String,
        ApiError,
    >)
        ensures
            outcome is Ok <==> (old(self).filenames_view().len() < MAX_FILES
                && content_type is Some && allowed_media_type(content_type->0@)
                && size <= MAX_FILE_SIZE),
            outcome is Err ==> outcome->Err_0 is ValidationError && *final(self) == *old(self),
            outcome is Ok ==> {
                &&& outcome->Ok_0@ == spec_upload_filename(
                    old(self).id_view(),
                    old(self).multi_page_flag(),
                    old(self).filenames_view().len() as int,
                    spec_extension(content_type->0@),
                )
                &&& final(self).filenames_view() == old(self).filenames_view().push(
                    outcome->Ok_0@,
                )
                &&& final(self).id_view() == old(self).id_view()
                &&& final(self).multi_page_flag() == old(self).multi_page_flag()
            },
    {
        if self.filenames.len() >= MAX_FILES {
            return Err(ApiError::ValidationError(String::from_str(
                "Too many files. Maximum is 5",
            )));
        }
        let declared = match content_type {
            Some(declared) => declared,
            None => {
                return Err(ApiError::ValidationError(String::from_str("Missing content type")));
            },
        };
        let extension = match mime_to_extension(declared) {
            Some(extension) => extension,
            None => {
                let message = String::from_str("Unsupported file type: ").concat(declared);
                return Err(ApiError::ValidationError(message));
            },
        };
        if size > MAX_FILE_SIZE {
            return Err(ApiError::ValidationError(String::from_str(
                "File too large. Maximum size is 10485760 bytes",
            )));
        }
        let prior = self.filenames.len();
        let mut filename = self.id.clone();
        if self.multi_page || prior >= 1 {
            filename.append("_");
            filename.append(digit_str(prior));
            filename.append(".");
        } else {
            filename.append(".");
        }
        filename.append(extension);
        self.filenames.push(filename.clone());
        proof {
            assert(self.filenames_view() =~= old(self).filenames_view().push(filename@));
        }
        Ok(filename)
    }

    /// Closes the batch: a batch with no accepted file is rejected as a
    /// validation error, any other reports its identifier, its filenames
    /// and whether it is multi-page (flagged so, or holding several files).
    pub fn finish(self) -> (outcome: Result<UploadOutcome, ApiError>)
        ensures
            outcome is Ok <==> self.filenames_view().len() > 0,
            outcome is Err ==> outcome->Err_0 is ValidationError,
            outcome is Ok ==> {
                &&& outcome->Ok_0.file_id@ == self.id_view()
                &&& outcome->Ok_0.filenames@.map_values(|f: String| f@) == self.filenames_view()
                &&& outcome->Ok_0.is_multi_page == (self.multi_page_flag()
                    || self.filenames_view().len() > 1)
            },
    {
        if self.filenames.len() == 0 {
            return Err(ApiError::ValidationError(String::from_str("No files provided")));
        }
        let multi = self.multi_page || self.filenames.len() > 1;
        Ok(UploadOutcome { file_id: self.id, filenames: self.filenames, is_multi_page: multi })
    }
}

} // verus!
