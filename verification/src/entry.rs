//! The persisted record and its assembly: a pure combination of the
//! trimmed note, the upload result, and the timestamp captured when the
//! run began.

use vstd::prelude::*;
use crate::response::UploadResult;

verus! {

/// One journal record, as it is persisted. Exactly zero or one of these
/// exists per run; there is no update or delete path.
pub struct JournalEntry {
    /// The user's note, trimmed of surrounding whitespace; may be empty.
    pub text: String,
    /// The upload response's secure URL, verbatim.
    pub media_url: String,
    /// Pixel width, where the upload response carried one.
    pub width: Option<u64>,
    /// Pixel height, where the upload response carried one.
    pub height: Option<u64>,
    /// The UTC timestamp captured at the start of the run, before any
    /// network work — not at persistence time.
    pub created_at: String,
}

impl JournalEntry {
    /// The pure assembly step: no side effects, no failure modes. Every
    /// field is taken verbatim from its source.
    pub fn assemble(text: String, upload: UploadResult, created_at: String) -> (r: JournalEntry)
        ensures
            r.text == text,
            r.media_url == upload.secure_url,
            r.width == upload.width,
            r.height == upload.height,
            r.created_at == created_at,
    {
        JournalEntry {
            text,
            media_url: upload.secure_url,
            width: upload.width,
            height: upload.height,
            created_at,
        }
    }
}

} // verus!
