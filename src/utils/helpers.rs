use vstd::prelude::*;
use vstd::string::StringExecFns;
use crate::error::WtfmError;

verus! {

/// Whether the pattern compiles with `regex::Regex::new` and then finds a
/// match in the text.
pub uninterp spec fn regex_accepts(pattern: Seq<char>, text: Seq<char>) -> bool;

/// What `str::trim` leaves of a text.
pub uninterp spec fn trimmed(s: Seq<char>) -> Seq<char>;

/// Relies on regex::Regex::new and regex::Regex::is_match: whether the
/// compiled pattern matches somewhere in the text. A pattern that does not
/// compile matches nothing.
#[verifier::external_body]
fn regex_is_match(pattern: &str, text: &str) -> (r: bool)
    ensures
        r == regex_accepts(pattern@, text@),
{
    match regex::Regex::new(pattern) {
        Ok(re) => re.is_match(text),
        Err(_) => false,
    }
}

/// Relies on str::trim: the text without its leading and trailing white
/// space. An empty text stays empty.
#[verifier::external_body]
fn trim(s: &str) -> (r: &str)
    ensures
        r@ == trimmed(s@),
        s@.len() == 0 ==> r@.len() == 0,
{
    s.trim()
}

/// A text that holds nothing but white space.
pub open spec fn is_blank(s: Seq<char>) -> bool {
    trimmed(s).len() == 0
}

/// Whether `s` holds nothing but white space; a text that is not blank is
/// not empty.
pub fn blank(s: &str) -> (r: bool)
    ensures
        r == is_blank(s@),
        !r ==> s@.len() > 0,
{
    trim(s).is_empty()
}

/// The shape of an email address: a local part, `@`, a domain and a
/// top-level part of two letters or more.
pub const EMAIL_PATTERN: &'static str = "^[a-zA-Z0-9._%+-]+@[a-zA-Z0-9.-]+\\.[a-zA-Z]{2,}$";

/// The shape of a version: three dot-separated numbers.
pub const VERSION_PATTERN: &'static str = "^\\d+\\.\\d+\\.\\d+$";

/// A well-formed email address.
pub open spec fn email_ok(s: Seq<char>) -> bool {
    regex_accepts(EMAIL_PATTERN@, s)
}

/// A well-formed version.
pub open spec fn version_ok(s: Seq<char>) -> bool {
    regex_accepts(VERSION_PATTERN@, s)
}

/// The validators that the sections apply to what the user types.
pub struct ValidationHelper;

impl ValidationHelper {
    /// Accepts an email address of the expected shape.
    pub fn validate_email(email: &str) -> (r: Result<(), WtfmError>)
        ensures
            r is Ok <==> email_ok(email@),
            r matches Err(WtfmError::InvalidEmail(s)) ==> s@ == email@,
            r is Err ==> r->Err_0 is InvalidEmail,
    {
        if regex_is_match(EMAIL_PATTERN, email) {
            Ok(())
        } else {
            Err(WtfmError::InvalidEmail(String::from_str(email)))
        }
    }

    /// Accepts any project name that is not blank.
    pub fn validate_project_name(name: &str) -> (r: Result<(), String>)
        ensures
            r is Ok <==> !is_blank(name@),
            r is Ok ==> name@.len() > 0,
            r matches Err(m) ==> m@ == "Project name cannot be empty"@,
    {
        if blank(name) {
            return Err(String::from_str("Project name cannot be empty"));
        }
        Ok(())
    }

    /// Accepts a version of three dot-separated numbers.
    pub fn validate_version(version: &str) -> (r: Result<(), WtfmError>)
        ensures
            r is Ok <==> version_ok(version@),
            r matches Err(WtfmError::InvalidVersion(s)) ==> s@ == version@,
            r is Err ==> r->Err_0 is InvalidVersion,
    {
        if regex_is_match(VERSION_PATTERN, version) {
            Ok(())
        } else {
            Err(WtfmError::InvalidVersion(String::from_str(version)))
        }
    }
}

} // verus!
