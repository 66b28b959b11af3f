//! Installing the new UDS manager.

use vstd::prelude::*;

use crate::error::{is_general, ReloadError};
use crate::updateable::{uds_manager_taken_message, DatabaseReloadContext, ReloadContext};

verus! {

/// The UDS manager is replaced after the gateway and before the routes.
pub const UDS_MANAGER_PRIORITY: u32 = 20;

/// The notification priority of the UDS manager component.
pub fn uds_manager_priority() -> (priority: u32)
    ensures
        priority == UDS_MANAGER_PRIORITY,
        priority > crate::reloadables::gateway::GATEWAY_PRIORITY,
{
    UDS_MANAGER_PRIORITY
}

/// `after` is `before` with its UDS manager slot emptied.
pub open spec fn uds_manager_slot_emptied<U, G, F, Fg>(
    before: ReloadContext<U, G, F, Fg>,
    after: ReloadContext<U, G, F, Fg>,
) -> bool {
    match before {
        ReloadContext::Configuration(_) => after == before,
        ReloadContext::Database(database) => after matches ReloadContext::Database(emptied)
            && *emptied == (DatabaseReloadContext { uds_manager: None, ..*database }),
    }
}

/// Taking the new UDS manager out of a reload context: the slot is emptied;
/// a configuration reload yields nothing, a database reload the new manager,
/// or the "already installed" error if the slot was empty.
pub open spec fn uds_manager_taken<U, G, F, Fg>(
    before: ReloadContext<U, G, F, Fg>,
    after: ReloadContext<U, G, F, Fg>,
    outcome: Result<Option<U>, ReloadError>,
) -> bool {
    &&& uds_manager_slot_emptied(before, after)
    &&& match before {
        ReloadContext::Configuration(_) => outcome matches Ok(None),
        ReloadContext::Database(database) => match database.uds_manager {
            Some(replacement) => outcome == Ok::<Option<U>, ReloadError>(Some(replacement)),
            None => outcome matches Err(error) && is_general(error, uds_manager_taken_message()),
        },
    }
}

/// On a database reload, takes the new UDS manager out of the context, for the
/// caller to swap in (see [`crate::reloadables::replace_installed`]) and then
/// shut the old one down; `None` on a configuration reload, which changes
/// nothing. If the new UDS manager was already taken, the reload fails.
pub fn uds_manager_replacement<U, G, F, Fg>(context: &mut ReloadContext<U, G, F, Fg>) -> (outcome: Result<
    Option<U>,
    ReloadError,
>)
    ensures
        uds_manager_taken(*old(context), *final(context), outcome),
{
    match context {
        ReloadContext::Configuration(_) => Ok(None),
        ReloadContext::Database(database) => {
            let replacement = database.take_uds_manager()?;
            Ok(Some(replacement))
        },
    }
}


/// Taking the new UDS manager touches nothing but its own slot: a configuration
/// reload is left as it is and yields nothing; on a database reload the
/// UDS manager slot ends empty, every other slot and field keeps its value, and
/// the step yields exactly the UDS manager the slot held, or, if it held none,
/// the `General` error "UDS manager already installed".
pub proof fn law_uds_manager_replacement_takes_only_its_slot<U, G, F, Fg>(
    before: ReloadContext<U, G, F, Fg>,
    after: ReloadContext<U, G, F, Fg>,
    outcome: Result<Option<U>, ReloadError>,
)
    requires
        uds_manager_taken(before, after, outcome),
    ensures
        match before {
            ReloadContext::Configuration(_) => after == before && outcome matches Ok(None),
            ReloadContext::Database(database) => {
                &&& after matches ReloadContext::Database(emptied)
                &&& emptied.uds_manager is None
                &&& emptied.diagnostic_gateway == database.diagnostic_gateway
                &&& emptied.file_managers == database.file_managers
                &&& emptied.ecu_names == database.ecu_names
                &&& emptied.functional_group_config == database.functional_group_config
                &&& emptied.mdd_paths == database.mdd_paths
                &&& database.uds_manager matches Some(replacement) ==> outcome == Ok::<
                    Option<U>,
                    ReloadError,
                >(Some(replacement))
                &&& database.uds_manager is None ==> (outcome matches Err(error) && is_general(
                    error,
                    "UDS manager already installed"@,
                ))
            },
        },
{
}

} // verus!
