use vstd::prelude::*;

verus! {

#[verifier::external_type_specification]
#[verifier::external_body]
pub struct ExIoError(std::io::Error);

/// The operating system's error number for "no such file or directory".
/// Kernel documentation says that an attribute which reports it is not
/// available on this platform.
pub const NOT_FOUND_CODE: i32 = 2;

/// Failure of an attribute access.
#[derive(Debug)]
pub enum SysfsError {
    /// The attribute does not exist: the feature is absent on this platform.
    MissingAttribute,
    /// Any other failure of the underlying file operation.
    Io(std::io::Error),
}

/// Whether an OS error number marks a missing attribute.
pub open spec fn is_missing_code(code: Option<i32>) -> bool {
    code == Some(NOT_FOUND_CODE)
}

/// The OS error number that an I/O error carries, if it came from the
/// operating system.
pub uninterp spec fn os_error_code(e: std::io::Error) -> Option<i32>;

/// Relies on std::io::Error::raw_os_error: the OS error number carried by the
/// error, which depends on the error value alone.
#[verifier::external_body]
fn raw_os_error(e: &std::io::Error) -> (r: Option<i32>)
    ensures
        r == os_error_code(*e),
{
    e.raw_os_error()
}

impl SysfsError {
    /// Sorts a failed file operation by the OS error number it reported.
    pub fn classify(code: Option<i32>, cause: std::io::Error) -> (r: SysfsError)
        ensures
            is_missing_code(code) ==> r is MissingAttribute,
            !is_missing_code(code) ==> r == SysfsError::Io(cause),
    {
        match code {
            Some(c) => {
                if c == NOT_FOUND_CODE {
                    SysfsError::MissingAttribute
                } else {
                    SysfsError::Io(cause)
                }
            },
            None => SysfsError::Io(cause),
        }
    }

    /// Sorts a failed read: a missing file is a missing attribute, anything
    /// else is kept as an I/O failure.
    pub fn from_read_error(e: std::io::Error) -> (r: SysfsError)
        ensures
            is_missing_code(os_error_code(e)) ==> r is MissingAttribute,
            !is_missing_code(os_error_code(e)) ==> r == SysfsError::Io(e),
    {
        let code = raw_os_error(&e);
        SysfsError::classify(code, e)
    }

    /// Whether this is the "feature absent" kind.
    pub fn is_missing(&self) -> (r: bool)
        ensures
            r == (self is MissingAttribute),
    {
        match self {
            SysfsError::MissingAttribute => true,
            SysfsError::Io(_) => false,
        }
    }
}

} // verus!
