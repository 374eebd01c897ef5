//! The decisions behind the file endpoints: replies and the bookkeeping of an upload.
use vstd::prelude::*;

use crate::status::{BAD_REQUEST, CREATED, INTERNAL_SERVER_ERROR, NOT_FOUND, OK};

verus! {

/// The directory that holds the stored files.
pub const UPLOAD_DIR: &'static str = "pcloud_files";

/// A stored file: its name and size in bytes.
#[derive(Debug)]
pub struct FileInfo {
    pub name: String,
    pub size: u64,
}

/// The reply when the named file does not exist: 404, `File not found: <name>`.
pub fn file_not_found(filename: &str) -> (r: (u16, String))
    ensures
        r.0 == NOT_FOUND,
        r.1@ == "File not found: "@ + filename@,
{
    let mut m = String::from_str("File not found: ");
    m.append(filename);
    (NOT_FOUND, m)
}

/// The reply when the named file was deleted: 200, `File '<name>' deleted successfully.`.
pub fn file_deleted(filename: &str) -> (r: (u16, String))
    ensures
        r.0 == OK,
        r.1@ == "File '"@ + filename@ + "' deleted successfully."@,
{
    let mut m = String::from_str("File '");
    m.append(filename);
    m.append("' deleted successfully.");
    (OK, m)
}

/// The reply when a storage step failed: 500, `Failed to <step>: <detail>`.
pub fn storage_failure(step: &str, detail: &str) -> (r: (u16, String))
    ensures
        r.0 == INTERNAL_SERVER_ERROR,
        r.1@ == "Failed to "@ + step@ + ": "@ + detail@,
{
    let mut m = String::from_str("Failed to ");
    m.append(step);
    m.append(": ");
    m.append(detail);
    (INTERNAL_SERVER_ERROR, m)
}

/// The `Content-Disposition` header of a download: `attachment; filename="<name>"`.
pub fn content_disposition(filename: &str) -> (r: String)
    ensures
        r@ == "attachment; filename=\""@ + filename@ + "\""@,
{
    let mut r = String::from_str("attachment; filename=\"");
    r.append(filename);
    r.append("\"");
    r
}

/// The bookkeeping of one multipart upload: every field that carries a file name is
/// stored under that name, and the reply names the last one.
#[derive(Debug)]
pub struct UploadTracker {
    uploaded_filename: String,
}

impl UploadTracker {
    /// The name of the last file field seen so far (empty before any).
    pub closed spec fn last_name(&self) -> Seq<char> {
        self.uploaded_filename@
    }

    /// A tracker that has seen no field.
    pub fn new() -> (r: UploadTracker)
        ensures
            r.last_name() == Seq::<char>::empty(),
    {
        UploadTracker { uploaded_filename: String::new() }
    }

    /// A form field arrived with this file name (or none): the name to store its content
    /// under, if it is a file.
    pub fn on_field(&mut self, file_name: Option<&str>) -> (r: Option<String>)
        ensures
            match file_name {
                Some(n) => (r matches Some(w) && w@ == n@) && final(self).last_name() == n@,
                None => r is None && final(self).last_name() == old(self).last_name(),
            },
    {
        match file_name {
            Some(n) => {
                self.uploaded_filename = String::from_str(n);
                Some(String::from_str(n))
            },
            None => None,
        }
    }

    /// The reply once every field has been read: 400 `No file uploaded` when the last file
    /// name is empty (or no file came), else 201 `File '<name>' uploaded successfully.`.
    pub fn finish(&self) -> (r: Result<(u16, String), (u16, String)>)
        ensures
            self.last_name().len() == 0 ==> (r matches Err((s, m)) && s == BAD_REQUEST && m@
                == "No file uploaded"@),
            self.last_name().len() != 0 ==> (r matches Ok((s, m)) && s == CREATED && m@ == "File '"@
                + self.last_name() + "' uploaded successfully."@),
    {
        if self.uploaded_filename.as_str().is_empty() {
            Err((BAD_REQUEST, String::from_str("No file uploaded")))
        } else {
            let mut m = String::from_str("File '");
            m.append(self.uploaded_filename.as_str());
            m.append("' uploaded successfully.");
            Ok((CREATED, m))
        }
    }
}

} // verus!
