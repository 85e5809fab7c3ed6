use vstd::prelude::*;

verus! {

/// The container extensions that the loader knows.
#[derive(Debug, Clone, Copy, PartialEq, Eq, Structural)]
pub enum Extension {
    Nes,
    InvalidExtension,
}

/// What `str::to_uppercase` returns for a string: its characters after Unicode upper-case
/// mapping.
pub uninterp spec fn upper_of(s: Seq<char>) -> Seq<char>;

/// Relies on `str::to_uppercase`: the result depends on the characters of `s` alone.
#[verifier::external_body]
fn to_upper(s: &str) -> (r: String)
    ensures
        r@ == upper_of(s@),
{
    s.to_uppercase()
}

/// Whether `s` is exactly `NES`.
pub open spec fn is_nes(s: Seq<char>) -> bool {
    s.len() == 3 && s[0] == 'N' && s[1] == 'E' && s[2] == 'S'
}

/// The extension named by an upper-cased extension string.
pub open spec fn extension_kind(upper: Seq<char>) -> Extension {
    if is_nes(upper) {
        Extension::Nes
    } else {
        Extension::InvalidExtension
    }
}

impl Extension {
    /// Recognises an extension, ignoring case.
    pub fn from_str(ext: &str) -> (r: Extension)
        ensures
            r == extension_kind(upper_of(ext@)),
    {
        let upper = to_upper(ext);
        Extension::from_upper(upper.as_str())
    }

    /// Recognises an extension that is already upper case.
    pub fn from_upper(upper: &str) -> (r: Extension)
        ensures
            r == extension_kind(upper@),
    {
        if upper.unicode_len() == 3 && upper.get_char(0) == 'N' && upper.get_char(1) == 'E'
            && upper.get_char(2) == 'S' {
            Extension::Nes
        } else {
            Extension::InvalidExtension
        }
    }
}

/// The container is not a valid cartridge image.
pub struct ErrorInvalidROMFile;

/// The file does not carry a recognised extension.
pub struct ErrorInvalidExtension;

/// A requested slice lies outside the container.
pub struct ErrorInvalidRange;

/// The file could not be opened.
pub struct ErrorOpeningROMFile;

/// The file could not be read.
pub struct ErrorReadingROMFile;

/// The program image could not be placed on the bus.
pub struct ErrorLoadingROMFile;

/// Every failure that loading a cartridge can report.
#[derive(Debug, Clone, Copy, PartialEq, Eq, Structural)]
pub enum Error {
    /// Bad magic signature.
    ErrorInvalidROMFile,
    /// Unknown container extension.
    ErrorInvalidExtension,
    /// A slice beyond the end of the container.
    ErrorInvalidRange,
    /// The container is shorter or longer than its header declares.
    ErrorInvalidFileSize,
    /// The file could not be opened.
    ErrorOpeningROMFile,
    /// The file could not be read.
    ErrorReadingROMFile,
    /// The program image has a size the bus cannot hold.
    ErrorLoadingROMFile,
}

} // verus!
