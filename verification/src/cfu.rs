//! Component firmware update service: access to the client context
use vstd::prelude::*;

verus! {

/// Singleton struct to give access to the cfu client context
pub struct ContextToken(());

impl ContextToken {
    /// Create a new context token, returning None if one was created before.
    ///
    /// `created` records whether a token exists; it is set by the first call.
    pub fn create(created: &mut bool) -> (r: Option<Self>)
        ensures
            r is Some <==> !*old(created),
            *final(created),
    {
        if *created {
            return None;
        }
        *created = true;
        Some(ContextToken(()))
    }
}

} // verus!
