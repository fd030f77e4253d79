//! What the status bar tells about the document.
use vstd::prelude::*;

verus! {

/// The state of the document at a glance.
#[derive(Debug)]
pub struct DocumentStatus {
    pub total_lines: usize,
    pub current_line_idx: usize,
    pub is_modified: bool,
    pub file_name: String,
}

/// What a status holds, as plain values.
pub struct StatusModel {
    pub total_lines: usize,
    pub current_line_idx: usize,
    pub is_modified: bool,
    pub file_name: Seq<char>,
}

impl View for DocumentStatus {
    type V = StatusModel;

    open spec fn view(&self) -> StatusModel {
        StatusModel {
            total_lines: self.total_lines,
            current_line_idx: self.current_line_idx,
            is_modified: self.is_modified,
            file_name: self.file_name@,
        }
    }
}

/// The name shown for a document that belongs to no file.
pub open spec fn no_name() -> Seq<char> {
    "[No Name]"@
}

/// The name shown for a document: that of its file, if it has one.
pub open spec fn shown_name(path: Option<Seq<char>>) -> Seq<char> {
    match path {
        Some(name) => name,
        None => no_name(),
    }
}

impl DocumentStatus {
    /// A copy of the status.
    pub fn duplicate(&self) -> (copy: DocumentStatus)
        ensures
            copy@ == self@,
    {
        DocumentStatus {
            total_lines: self.total_lines,
            current_line_idx: self.current_line_idx,
            is_modified: self.is_modified,
            file_name: self.file_name.clone(),
        }
    }
}

} // verus!
