use vstd::prelude::*;
use crate::registry::{Emulators, fresh_registry};

verus! {

/// Why no saved registry could be read.
#[derive(Clone, Copy, Debug, PartialEq, Eq, Structural)]
pub enum LoadError {
    /// The file could not be read.
    ReadError,
    /// The file holds nothing.
    EmptyFile,
    /// The file's text is not a saved registry.
    ParseError,
}

/// What the saved file's contents `read` (`None`: it could not be read)
/// leave to parse: the text, unless there is none.
pub fn saved_text(read: Option<&str>) -> (r: Result<&str, LoadError>)
    ensures
        match read {
            None => r == Err::<&str, LoadError>(LoadError::ReadError),
            Some(t) => if t@.len() == 0 {
                r == Err::<&str, LoadError>(LoadError::EmptyFile)
            } else {
                r == Ok::<&str, LoadError>(t)
            },
        },
{
    match read {
        None => Err(LoadError::ReadError),
        Some(t) => if t.is_empty() {
            Err(LoadError::EmptyFile)
        } else {
            Ok(t)
        },
    }
}

/// The registry to start a session with: the saved one where it could be
/// read, else one made from the known program paths `known`.
pub fn registry_or_default(loaded: Result<Emulators, LoadError>, known: Vec<&str>, exec_dir: &str) -> (r: Emulators)
    requires
        loaded matches Ok(reg) ==> reg.wf(),
    ensures
        match loaded {
            Ok(reg) => r@ == reg@,
            Err(_) => r@ == fresh_registry(known@.map_values(|s: &str| s@), exec_dir@),
        },
        r.wf(),
{
    match loaded {
        Ok(reg) => reg,
        Err(_) => Emulators::from_strings(known, exec_dir),
    }
}

} // verus!
