//! Validated empty-or-dot-prefixed namespace.

use vstd::prelude::*;
use crate::error::Error;

verus! {

/// A namespace: empty (root level) or starting with `.`.
pub open spec fn is_namespace(s: Seq<char>) -> bool {
    s.len() == 0 || s[0] == '.'
}

/// The message with which a namespace without the dot prefix is rejected.
pub open spec fn bad_namespace_message(ns: Seq<char>) -> Seq<char> {
    "Invalid namespace '"@ + ns
        + "'. Non-empty namespaces must start with dot prefix (e.g., '.video'). Empty namespace is allowed for root-level commands."@
}

/// A namespace that is guaranteed to be empty or dot-prefixed.
#[derive(Debug)]
pub struct NamespaceType(String);

impl View for NamespaceType {
    type V = Seq<char>;

    closed spec fn view(&self) -> Seq<char> {
        self.0@
    }
}

impl Clone for NamespaceType {
    fn clone(&self) -> (r: Self)
        ensures
            r@ == self@,
    {
        proof {
            use_type_invariant(self);
        }
        NamespaceType(self.0.clone())
    }
}

impl NamespaceType {
    #[verifier::type_invariant]
    spec fn inv(&self) -> bool {
        is_namespace(self.0@)
    }

    /// Validates and wraps a namespace.
    pub fn new(namespace: &str) -> (r: Result<Self, Error>)
        ensures
            r is Ok <==> is_namespace(namespace@),
            r matches Ok(n) ==> n@ == namespace@,
            r matches Err(e) ==> e matches Error::Registration(m) && m@ == bad_namespace_message(namespace@),
    {
        let v = crate::text::chars_of(namespace);
        if v.len() == 0 {
            return Ok(NamespaceType(crate::text::owned(namespace)));
        }
        if v[0] != '.' {
            let mut m = crate::text::owned("Invalid namespace '");
            crate::text::push_str(&mut m, namespace);
            crate::text::push_str(&mut m, "'. Non-empty namespaces must start with dot prefix (e.g., '.video'). Empty namespace is allowed for root-level commands.");
            return Err(Error::Registration(m));
        }
        Ok(NamespaceType(crate::text::owned(namespace)))
    }

    /// The namespace as a string slice.
    pub fn as_str(&self) -> (r: &str)
        ensures
            r@ == self@,
            is_namespace(self@),
    {
        proof {
            use_type_invariant(self);
        }
        self.0.as_str()
    }

    /// The namespace as an owned `String`.
    pub fn into_inner(self) -> (r: String)
        ensures
            r@ == self@,
            is_namespace(self@),
    {
        proof {
            use_type_invariant(&self);
        }
        self.0
    }

    /// Whether this is the root (empty) namespace.
    pub fn is_root(&self) -> (r: bool)
        ensures
            r == (self@.len() == 0),
    {
        let v = crate::text::chars_of(self.0.as_str());
        v.len() == 0
    }
}

} // verus!
