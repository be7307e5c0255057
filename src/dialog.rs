//! The caller's dialog options and the checked bridge from OS path bytes to text.
use vstd::prelude::*;
use vstd::utf8::*;

verus! {

/// A named group of acceptable file extensions.
pub struct Filter {
    pub name: String,
    pub extensions: Vec<String>,
}

/// Options shared by every dialog builder.
pub struct FileDialog {
    pub filters: Vec<Filter>,
    /// The starting directory, as the bytes of the OS path.
    pub starting_directory: Option<Vec<u8>>,
}

/// A path reported by the OS was not valid UTF-8.
#[derive(Debug, Clone, Copy, PartialEq, Eq, Structural)]
pub enum PathDecodeError {
    InvalidUtf8,
}

/// The extensions of one filter, as text.
pub open spec fn extensions_of(f: Filter) -> Seq<Seq<char>> {
    f.extensions@.map_values(|e: String| e@)
}

/// All extensions of all filters, in order: the filters' lists concatenated.
pub open spec fn flatten_extensions(filters: Seq<Filter>) -> Seq<Seq<char>>
    decreases filters.len(),
{
    if filters.len() == 0 {
        Seq::empty()
    } else {
        flatten_extensions(filters.drop_last()) + extensions_of(filters.last())
    }
}

impl Filter {
    pub fn new(name: String, extensions: Vec<String>) -> (r: Filter)
        ensures
            r.name@ == name@,
            r.extensions@ == extensions@,
    {
        Filter { name, extensions }
    }
}

impl FileDialog {
    pub fn new() -> (r: FileDialog)
        ensures
            r.filters@.len() == 0,
            r.starting_directory.is_none(),
    {
        FileDialog { filters: Vec::new(), starting_directory: None }
    }

    pub fn add_filter(self, filter: Filter) -> (r: FileDialog)
        ensures
            r.filters@ == self.filters@.push(filter),
            r.starting_directory == self.starting_directory,
    {
        let mut filters = self.filters;
        filters.push(filter);
        FileDialog { filters, starting_directory: self.starting_directory }
    }

    pub fn set_directory(self, path: Vec<u8>) -> (r: FileDialog)
        ensures
            r.filters@ == self.filters@,
            r.starting_directory == Some(path),
    {
        FileDialog { filters: self.filters, starting_directory: Some(path) }
    }
}

/// Relies on std::str::from_utf8: `Ok` exactly on valid UTF-8, and then the
/// text is the decoding of the bytes; `to_owned` copies it into a `String`.
#[verifier::external_body]
fn utf8_to_string(bytes: &[u8]) -> (r: Option<String>)
    ensures
        r.is_some() == valid_utf8(bytes@),
        r.is_some() ==> r.unwrap()@ == decode_utf8(bytes@),
{
    match std::str::from_utf8(bytes) {
        Ok(s) => Some(s.to_owned()),
        Err(_) => None,
    }
}

/// Decodes the bytes of an OS path, failing on anything that is not UTF-8.
pub fn decode_path(bytes: &[u8]) -> (r: Result<String, PathDecodeError>)
    ensures
        valid_utf8(bytes@) ==> r is Ok && r.unwrap()@ == decode_utf8(bytes@),
        !valid_utf8(bytes@) ==> r == Err::<String, PathDecodeError>(PathDecodeError::InvalidUtf8),
{
    match utf8_to_string(bytes) {
        Some(s) => Ok(s),
        None => Err(PathDecodeError::InvalidUtf8),
    }
}

} // verus!
