use vstd::prelude::*;
use vstd::string::StringExecFns;

verus! {

/// What can go wrong in the wizard, with the text it concerns.
#[derive(Clone, Debug)]
pub enum WtfmError {
    EmptyProjectName,
    InvalidProjectName(String),
    InvalidEmail(String),
    InvalidVersion(String),
    EmptyInput(String),
    ConfigNotFound(String),
    ConfigWriteError(String),
    PermissionDenied(String),
    SectionNotFound(String),
    RequiredSectionMissing(String),
    SerializationError(String),
    DeserializationError(String),
    UnexpectedError(String),
}

/// The explanation shown for an error: a fixed lead-in, the text concerned,
/// and for some kinds a hint after it.
pub open spec fn error_message(e: WtfmError) -> Seq<char> {
    match e {
        WtfmError::EmptyProjectName => "Project name cannot be empty"@,
        WtfmError::InvalidProjectName(s) => "Invalid project name '"@ + s@
            + "'. Use only letters, numbers, hyphens and underscores"@,
        WtfmError::InvalidEmail(s) => "Invalid email address: "@ + s@,
        WtfmError::InvalidVersion(s) => "Invalid version format '"@ + s@
            + "'. Use semantic versioning (e.g., 1.0.0)"@,
        WtfmError::EmptyInput(s) => "Empty input for field: "@ + s@,
        WtfmError::ConfigNotFound(s) => "Configuration file not found at: "@ + s@,
        WtfmError::ConfigWriteError(s) => "Failed to write configuration to: "@ + s@,
        WtfmError::PermissionDenied(s) => "Permission denied accessing: "@ + s@,
        WtfmError::SectionNotFound(s) => "Section not found: "@ + s@,
        WtfmError::RequiredSectionMissing(s) => "Required section not configured: "@ + s@,
        WtfmError::SerializationError(s) => "Failed to serialize configuration: "@ + s@,
        WtfmError::DeserializationError(s) => "Failed to deserialize configuration: "@ + s@,
        WtfmError::UnexpectedError(s) => "An unexpected error occurred: "@ + s@,
    }
}

fn lead_then(lead: &str, s: &String) -> (r: String)
    ensures
        r@ == lead@ + s@,
{
    String::from_str(lead).concat(s.as_str())
}

impl WtfmError {
    /// The text of the error as it is shown to the user.
    pub fn message(&self) -> (r: String)
        ensures
            r@ == error_message(*self),
    {
        match self {
            WtfmError::EmptyProjectName => String::from_str("Project name cannot be empty"),
            WtfmError::InvalidProjectName(s) => lead_then("Invalid project name '", s).concat(
                "'. Use only letters, numbers, hyphens and underscores",
            ),
            WtfmError::InvalidEmail(s) => lead_then("Invalid email address: ", s),
            WtfmError::InvalidVersion(s) => lead_then("Invalid version format '", s).concat(
                "'. Use semantic versioning (e.g., 1.0.0)",
            ),
            WtfmError::EmptyInput(s) => lead_then("Empty input for field: ", s),
            WtfmError::ConfigNotFound(s) => lead_then("Configuration file not found at: ", s),
            WtfmError::ConfigWriteError(s) => lead_then("Failed to write configuration to: ", s),
            WtfmError::PermissionDenied(s) => lead_then("Permission denied accessing: ", s),
            WtfmError::SectionNotFound(s) => lead_then("Section not found: ", s),
            WtfmError::RequiredSectionMissing(s) => lead_then(
                "Required section not configured: ",
                s,
            ),
            WtfmError::SerializationError(s) => lead_then(
                "Failed to serialize configuration: ",
                s,
            ),
            WtfmError::DeserializationError(s) => lead_then(
                "Failed to deserialize configuration: ",
                s,
            ),
            WtfmError::UnexpectedError(s) => lead_then("An unexpected error occurred: ", s),
        }
    }
}

} // verus!
