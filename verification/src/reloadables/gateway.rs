//! Installing the new diagnostic gateway.

use vstd::prelude::*;

use crate::error::{is_general, ReloadError};
use crate::updateable::{gateway_taken_message, DatabaseReloadContext, ReloadContext};

verus! {

/// The gateway is replaced early, before the UDS manager.
pub const GATEWAY_PRIORITY: u32 = 10;

/// The notification priority of the diagnostic gateway component.
pub fn gateway_priority() -> (priority: u32)
    ensures
        priority == GATEWAY_PRIORITY,
{
    GATEWAY_PRIORITY
}

/// `after` is `before` with its diagnostic gateway slot emptied.
pub open spec fn gateway_slot_emptied<U, G, F, Fg>(
    before: ReloadContext<U, G, F, Fg>,
    after: ReloadContext<U, G, F, Fg>,
) -> bool {
    match before {
        ReloadContext::Configuration(_) => after == before,
        ReloadContext::Database(database) => after matches ReloadContext::Database(emptied)
            && *emptied == (DatabaseReloadContext { diagnostic_gateway: None, ..*database }),
    }
}

/// Taking the new diagnostic gateway out of a reload context: the slot is
/// emptied; a configuration reload yields nothing, a database reload the new
/// gateway, or the "already installed" error if the slot was empty.
pub open spec fn gateway_taken<U, G, F, Fg>(
    before: ReloadContext<U, G, F, Fg>,
    after: ReloadContext<U, G, F, Fg>,
    outcome: Result<Option<G>, ReloadError>,
) -> bool {
    &&& gateway_slot_emptied(before, after)
    &&& match before {
        ReloadContext::Configuration(_) => outcome matches Ok(None),
        ReloadContext::Database(database) => match database.diagnostic_gateway {
            Some(replacement) => outcome == Ok::<Option<G>, ReloadError>(Some(replacement)),
            None => outcome matches Err(error) && is_general(error, gateway_taken_message()),
        },
    }
}

/// On a database reload, takes the new diagnostic gateway out of the context, for the
/// caller to swap in (see [`crate::reloadables::replace_installed`]) and then
/// shut the old one down; `None` on a configuration reload, which changes
/// nothing. If the new diagnostic gateway was already taken, the reload fails.
pub fn gateway_replacement<U, G, F, Fg>(context: &mut ReloadContext<U, G, F, Fg>) -> (outcome: Result<
    Option<G>,
    ReloadError,
>)
    ensures
        gateway_taken(*old(context), *final(context), outcome),
{
    match context {
        ReloadContext::Configuration(_) => Ok(None),
        ReloadContext::Database(database) => {
            let replacement = database.take_diagnostic_gateway()?;
            Ok(Some(replacement))
        },
    }
}


/// Taking the new diagnostic gateway touches nothing but its own slot: a configuration
/// reload is left as it is and yields nothing; on a database reload the
/// diagnostic gateway slot ends empty, every other slot and field keeps its value, and
/// the step yields exactly the diagnostic gateway the slot held, or, if it held none,
/// the `General` error "diagnostic gateway already installed".
pub proof fn law_gateway_replacement_takes_only_its_slot<U, G, F, Fg>(
    before: ReloadContext<U, G, F, Fg>,
    after: ReloadContext<U, G, F, Fg>,
    outcome: Result<Option<G>, ReloadError>,
)
    requires
        gateway_taken(before, after, outcome),
    ensures
        match before {
            ReloadContext::Configuration(_) => after == before && outcome matches Ok(None),
            ReloadContext::Database(database) => {
                &&& after matches ReloadContext::Database(emptied)
                &&& emptied.diagnostic_gateway is None
            &&& emptied.uds_manager == database.uds_manager
            &&& emptied.file_managers == database.file_managers
            &&& emptied.ecu_names == database.ecu_names
            &&& emptied.functional_group_config == database.functional_group_config
            &&& emptied.mdd_paths == database.mdd_paths
                &&& database.diagnostic_gateway matches Some(replacement) ==> outcome == Ok::<
                    Option<G>,
                    ReloadError,
                >(Some(replacement))
                &&& database.diagnostic_gateway is None ==> (outcome matches Err(error) && is_general(
                    error,
                    "diagnostic gateway already installed"@,
                ))
            },
        },
{
}

} // verus!
