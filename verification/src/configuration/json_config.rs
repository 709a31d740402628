//! A configuration source backed by a JSON document.
//!
//! The document itself is deserialized by the unverified shell; this type
//! pairs the not-yet-read document with the base directory that relative
//! skin paths resolve against.

use vstd::prelude::*;

verus! {

/// A JSON configuration document paired with its base directory.
pub struct JsonConfig<R> {
    base: String,
    inner: R,
}

impl<R> JsonConfig<R> {
    /// The base directory that relative paths in the document resolve
    /// against.
    pub closed spec fn base(self) -> Seq<char> {
        self.base@
    }

    /// The document reader, untouched since construction.
    pub closed spec fn inner(self) -> R {
        self.inner
    }

    /// Pairs an open document with the directory its paths resolve against.
    pub fn from_read(base: String, inner: R) -> (r: JsonConfig<R>)
        ensures
            r.base() == base@,
            r.inner() == inner,
    {
        JsonConfig { base, inner }
    }

    /// The base directory, copied out.
    pub fn get_path_base(&self) -> (r: String)
        ensures
            r@ == self.base(),
    {
        self.base.clone()
    }

    /// Hands the document reader back for the shell to deserialize.
    pub fn into_read(self) -> (r: R)
        ensures
            r == self.inner(),
    {
        self.inner
    }
}

} // verus!
