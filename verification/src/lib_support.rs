//! Traits that companion crates implement for the objects they build.
use vstd::prelude::*;

verus! {

/// An enumeration whose variants stand for fixed strings, such as the identifiers of the
/// settings a source builder writes.
pub trait StringEnum {
    fn to_str(&self) -> &str;
}

} // verus!
