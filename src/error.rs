use vstd::prelude::*;

verus! {

/// Why creating a record failed. Each variant that concerns a file carries
/// the offending path and the system's description of the failure.
#[derive(Debug, PartialEq, Eq)]
pub enum RecordError {
    /// The system clock reads a time before the Unix epoch.
    Clock,
    /// The target directory could not be created.
    Directory { path: String, message: String },
    /// The named template file exists but could not be read.
    TemplateRead { path: String, message: String },
    /// Creating the record file failed for a reason other than its existence.
    FileCreate { path: String, message: String },
    /// Writing the template body into the claimed file failed. The file
    /// stays behind, empty or partly written: only claiming the path is atomic.
    Write { path: String, message: String },
    /// Every attempt suffix up to the largest one is taken.
    AttemptsExhausted { path: String },
}

} // verus!
