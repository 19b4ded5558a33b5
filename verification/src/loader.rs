//! Resolution of the routine links that command definitions name.

use vstd::prelude::*;
use crate::data::output::{ ErrorCode, ErrorData, OutputData };
use crate::error::Error;
use crate::text::{ owned, push_str };

verus! {

broadcast use vstd::string::group_string_axioms;

/// The routine of a link that cannot be resolved: loading routines from
/// libraries is not supported, so running it fails.
#[derive(Debug)]
pub struct UnresolvedRoutine {
    link: String,
}

/// The message with which the routine of an unresolved link fails.
pub open spec fn unresolved_message(link: Seq<char>) -> Seq<char> {
    "Routine link '"@ + link + "' cannot be resolved: dynamic library loading is not yet implemented"@
}

impl UnresolvedRoutine {
    /// The link it stands for.
    pub closed spec fn link_view(&self) -> Seq<char> {
        self.link@
    }

    /// The link it stands for.
    pub fn link(&self) -> (r: &str)
        ensures
            r@ == self.link_view(),
    {
        self.link.as_str()
    }

    /// Runs the routine: it always fails as not implemented, naming its link.
    pub fn call(&self) -> (r: Result<OutputData, ErrorData>)
        ensures
            r matches Err(e) && e.code == ErrorCode::CommandNotImplemented && e.message@ == unresolved_message(
                self.link_view()),
    {
        let mut m = owned("Routine link '");
        push_str(&mut m, self.link.as_str());
        push_str(&mut m, "' cannot be resolved: dynamic library loading is not yet implemented");
        Err(ErrorData::new(ErrorCode::CommandNotImplemented, m))
    }
}

/// The routine of a link. Resolution always succeeds, with a routine that
/// fails when run (see `UnresolvedRoutine::call`), so that a registry can
/// still be built from definitions that name links.
pub fn resolve_routine_link(link: &str) -> (r: Result<UnresolvedRoutine, Error>)
    ensures
        r matches Ok(routine) && routine.link_view() == link@,
{
    Ok(UnresolvedRoutine { link: owned(link) })
}

} // verus!
