//! Validated dot-prefixed command name.

use vstd::prelude::*;
use crate::error::Error;

verus! {

/// A command name: non-empty and starting with `.`.
pub open spec fn is_command_name(s: Seq<char>) -> bool {
    s.len() > 0 && s[0] == '.'
}

/// A command name that is guaranteed to start with the `.` prefix.
#[derive(Debug)]
pub struct CommandName(String);

impl View for CommandName {
    type V = Seq<char>;

    closed spec fn view(&self) -> Seq<char> {
        self.0@
    }
}

impl Clone for CommandName {
    fn clone(&self) -> (r: Self)
        ensures
            r@ == self@,
    {
        proof {
            use_type_invariant(self);
        }
        CommandName(self.0.clone())
    }
}

impl CommandName {
    #[verifier::type_invariant]
    spec fn inv(&self) -> bool {
        is_command_name(self.0@)
    }

    /// Validates and wraps a name: empty names and names without the leading
    /// `.` are rejected.
    pub fn new(name: &str) -> (r: Result<Self, Error>)
        ensures
            r is Ok <==> is_command_name(name@),
            r matches Ok(n) ==> n@ == name@,
            r matches Err(e) ==> (if name@.len() == 0 {
                e is EmptyCommandName
            } else {
                e matches Error::MissingDotPrefix(s) && s@ == name@
            }),
    {
        let v = crate::text::chars_of(name);
        if v.len() == 0 {
            return Err(Error::EmptyCommandName);
        }
        if v[0] != '.' {
            return Err(Error::MissingDotPrefix(crate::text::owned(name)));
        }
        Ok(CommandName(crate::text::owned(name)))
    }

    /// The name as a string slice.
    pub fn as_str(&self) -> (r: &str)
        ensures
            r@ == self@,
            is_command_name(self@),
    {
        proof {
            use_type_invariant(self);
        }
        self.0.as_str()
    }

    /// The name as an owned `String`.
    pub fn into_inner(self) -> (r: String)
        ensures
            r@ == self@,
            is_command_name(self@),
    {
        proof {
            use_type_invariant(&self);
        }
        self.0
    }

    /// The validity that every value of this type has.
    pub fn valid(&self)
        ensures
            is_command_name(self@),
    {
        proof {
            use_type_invariant(self);
        }
    }
}

} // verus!
