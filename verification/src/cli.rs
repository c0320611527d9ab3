//! What to do with the records of a report command.

use vstd::prelude::*;

verus! {

/// The output options of a report command. At most one of them is meant to
/// be set; where several are, the first in the order print, write, upload
/// wins.
#[derive(Clone, Debug, PartialEq, Eq)]
pub struct PrintWriteUpload {
    /// Print the records as a table.
    pub print: bool,
    /// Write the records to a spreadsheet file at this path.
    pub write: Option<String>,
    /// Export the records as a spreadsheet and upload it under this name.
    pub upload: Option<String>,
}

/// The one thing a report command does with its records.
#[derive(Clone, Copy, Debug, PartialEq, Eq, Structural)]
pub enum Output {
    Print,
    Write,
    Upload,
    Nothing,
}

impl PrintWriteUpload {
    /// The output that the options select.
    pub open spec fn selects(self) -> Output {
        if self.print {
            Output::Print
        } else if self.write is Some {
            Output::Write
        } else if self.upload is Some {
            Output::Upload
        } else {
            Output::Nothing
        }
    }

    /// The output that the options select.
    pub fn output(&self) -> (output: Output)
        ensures
            output == self.selects(),
    {
        if self.print {
            Output::Print
        } else if self.write.is_some() {
            Output::Write
        } else if self.upload.is_some() {
            Output::Upload
        } else {
            Output::Nothing
        }
    }
}

} // verus!
