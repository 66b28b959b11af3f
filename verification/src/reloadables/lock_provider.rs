//! Telling the lock provider which ECUs exist after a database reload.

use vstd::prelude::*;

use crate::error::{is_general, ReloadError};
use crate::updateable::ReloadContext;

verus! {

/// The lock provider learns the new ECUs after the UDS manager was replaced.
pub const LOCK_PROVIDER_PRIORITY: u32 = 30;

/// The notification priority of the lock provider component.
pub fn lock_provider_priority() -> (priority: u32)
    ensures
        priority == LOCK_PROVIDER_PRIORITY,
        priority > crate::reloadables::uds_manager::UDS_MANAGER_PRIORITY,
{
    LOCK_PROVIDER_PRIORITY
}

/// The lock provider tracks the ECU names of a database reload, and nothing
/// on a configuration reload.
pub open spec fn lock_entries_of<U, G, F, Fg>(
    context: ReloadContext<U, G, F, Fg>,
    entries: Option<Vec<String>>,
) -> bool {
    match context {
        ReloadContext::Configuration(_) => entries is None,
        ReloadContext::Database(database) => entries matches Some(names) && names@
            == database.ecu_names@,
    }
}

/// Success stays success; a failure becomes a `General` error carrying the
/// provider's message.
pub open spec fn lock_update_mapped(update: Result<(), String>, result: Result<(), ReloadError>) -> bool {
    match update {
        Ok(_) => result is Ok,
        Err(message) => result matches Err(error) && is_general(error, message@),
    }
}

/// The ECU names the lock provider is to track after this reload: those of
/// a database reload; none for a configuration reload, which the lock
/// provider ignores.
pub fn lock_provider_entries<U, G, F, Fg>(context: &ReloadContext<U, G, F, Fg>) -> (entries:
    Option<Vec<String>>)
    ensures
        lock_entries_of(*context, entries),
{
    match context {
        ReloadContext::Configuration(_) => None,
        ReloadContext::Database(database) => {
            let ecu_names = &database.ecu_names;
            let mut names: Vec<String> = Vec::new();
            let mut index: usize = 0;
            while index < ecu_names.len()
                invariant
                    index <= ecu_names.len(),
                    names@ == ecu_names@.take(index as int),
                decreases ecu_names.len() - index,
            {
                names.push(ecu_names[index].clone());
                index = index + 1;
                proof {
                    assert(names@ =~= ecu_names@.take(index as int));
                }
            }
            proof {
                assert(ecu_names@.take(index as int) =~= ecu_names@);
            }
            Some(names)
        },
    }
}

/// The reload outcome of updating the lock provider: success, or a `General`
/// error carrying the provider's message.
pub fn lock_update_result(update: Result<(), String>) -> (result: Result<(), ReloadError>)
    ensures
        lock_update_mapped(update, result),
{
    match update {
        Ok(()) => Ok(()),
        Err(message) => Err(ReloadError::General(message)),
    }
}


/// On a database reload the lock provider gets every ECU name of the reload,
/// in order and nothing else; a configuration reload gives it nothing.
pub proof fn law_lock_entries_are_the_reload_ecus<U, G, F, Fg>(
    context: ReloadContext<U, G, F, Fg>,
    entries: Option<Vec<String>>,
)
    requires
        lock_entries_of(context, entries),
    ensures
        match context {
            ReloadContext::Configuration(_) => entries is None,
            ReloadContext::Database(database) => {
                &&& entries matches Some(names)
                &&& names@.len() == database.ecu_names@.len()
                &&& forall|i: int|
                    0 <= i < names@.len() ==> #[trigger] names@[i] == database.ecu_names@[i]
            },
        },
{
}

/// The provider's outcome decides the reload's: success stays success, and a
/// failure becomes a `General` error with the provider's message.
pub proof fn law_lock_update_result(update: Result<(), String>, result: Result<(), ReloadError>)
    requires
        lock_update_mapped(update, result),
    ensures
        update is Ok <==> result is Ok,
        update matches Err(message) ==> result matches Err(ReloadError::General(reported))
            && reported@ == message@,
{
}

} // verus!
