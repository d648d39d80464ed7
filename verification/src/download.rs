//! The two decisions the binding layer itself makes around a download, before
//! the transfer is handed to the external collaborator: only a registered
//! label may be fetched, and a missing destination falls back to a default
//! directory. Both take the outside world's answers — the registry's lookup,
//! the process's current directory — as plain arguments.

use vstd::prelude::*;

use crate::domain::RegistryError;

verus! {

/// The guard a download must pass before any transfer starts: a dataset may
/// only be fetched under a label the registry reports as registered. Takes the
/// registry's own answer to that query and turns a negative into the registry
/// family's `NotRegistered` error for the queried label.
pub fn ensure_registered(label: &str, registered: bool) -> (r: Result<(), RegistryError>)
    ensures
        registered <==> r is Ok,
        !registered ==> (r matches Err(e) && e matches RegistryError::NotRegistered(l) && l@
            == label@),
{
    if registered {
        Ok(())
    } else {
        Err(RegistryError::NotRegistered(label.to_owned()))
    }
}

/// Picks where a download lands: the destination the caller asked for, or,
/// when none was given, the supplied default directory.
pub fn resolve_destination(dest: Option<String>, default_dir: String) -> (d: String)
    ensures
        dest matches Some(p) ==> d == p,
        dest is None ==> d == default_dir,
{
    match dest {
        Some(p) => p,
        None => default_dir,
    }
}

} // verus!
