//! Validated non-empty version string.

use vstd::prelude::*;
use crate::error::Error;

verus! {

/// The message with which an empty version is rejected.
pub open spec fn empty_version_message() -> Seq<char> {
    "Invalid version: version string cannot be empty"@
}

/// A version string that is guaranteed not to be empty.
#[derive(Debug)]
pub struct VersionType(String);

impl View for VersionType {
    type V = Seq<char>;

    closed spec fn view(&self) -> Seq<char> {
        self.0@
    }
}

impl Clone for VersionType {
    fn clone(&self) -> (r: Self)
        ensures
            r@ == self@,
    {
        proof {
            use_type_invariant(self);
        }
        VersionType(self.0.clone())
    }
}

impl VersionType {
    #[verifier::type_invariant]
    spec fn inv(&self) -> bool {
        self.0@.len() > 0
    }

    /// Validates and wraps a version: only the empty string is rejected.
    pub fn new(version: &str) -> (r: Result<Self, Error>)
        ensures
            r is Ok <==> version@.len() > 0,
            r matches Ok(v) ==> v@ == version@,
            r matches Err(e) ==> e matches Error::Registration(m) && m@ == empty_version_message(),
    {
        let v = crate::text::chars_of(version);
        if v.len() == 0 {
            return Err(Error::Registration(crate::text::owned("Invalid version: version string cannot be empty")));
        }
        Ok(VersionType(crate::text::owned(version)))
    }

    /// The version as a string slice.
    pub fn as_str(&self) -> (r: &str)
        ensures
            r@ == self@,
            self@.len() > 0,
    {
        proof {
            use_type_invariant(self);
        }
        self.0.as_str()
    }

    /// The version as an owned `String`.
    pub fn into_inner(self) -> (r: String)
        ensures
            r@ == self@,
            self@.len() > 0,
    {
        proof {
            use_type_invariant(&self);
        }
        self.0
    }
}

} // verus!
