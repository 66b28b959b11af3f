//! Rebuilding the vehicle routes after a database reload.

use std::collections::HashMap;
use vstd::prelude::*;

use crate::error::{is_general, is_replacement_failure, ReloadError};
use crate::updateable::{file_managers_taken_message, DatabaseReloadContext, ReloadContext};

verus! {

/// The routes are rebuilt last, from the installed UDS manager and the
/// lock provider's current locks.
pub const VEHICLE_ROUTES_PRIORITY: u32 = 40;

/// The notification priority of the vehicle route component.
pub fn vehicle_routes_priority() -> (priority: u32)
    ensures
        priority == VEHICLE_ROUTES_PRIORITY,
        priority > crate::reloadables::uds_manager::UDS_MANAGER_PRIORITY,
        priority > crate::reloadables::lock_provider::LOCK_PROVIDER_PRIORITY,
{
    VEHICLE_ROUTES_PRIORITY
}

/// `after` is `before` with its file manager slot emptied.
pub open spec fn file_managers_slot_emptied<U, G, F, Fg>(
    before: ReloadContext<U, G, F, Fg>,
    after: ReloadContext<U, G, F, Fg>,
) -> bool {
    match before {
        ReloadContext::Configuration(_) => after == before,
        ReloadContext::Database(database) => after matches ReloadContext::Database(emptied)
            && *emptied == (DatabaseReloadContext { file_managers: None, ..*database }),
    }
}

/// Taking the new file managers out of a reload context: the slot is
/// emptied; a configuration reload yields nothing, a database reload the new
/// file managers, or the "already installed" error if the slot was empty.
pub open spec fn route_file_managers_taken<U, G, F, Fg>(
    before: ReloadContext<U, G, F, Fg>,
    after: ReloadContext<U, G, F, Fg>,
    outcome: Result<Option<HashMap<String, F>>, ReloadError>,
) -> bool {
    &&& file_managers_slot_emptied(before, after)
    &&& match before {
        ReloadContext::Configuration(_) => outcome matches Ok(None),
        ReloadContext::Database(database) => match database.file_managers {
            Some(file_managers) => outcome == Ok::<Option<HashMap<String, F>>, ReloadError>(
                Some(file_managers),
            ),
            None => outcome matches Err(error) && is_general(error, file_managers_taken_message()),
        },
    }
}

/// On a database reload, takes the new file managers that the rebuilt routes
/// are to serve; `None` on a configuration reload, which leaves the routes
/// alone. If the file managers were already taken, the reload fails.
pub fn take_route_file_managers<U, G, F, Fg>(context: &mut ReloadContext<U, G, F, Fg>) -> (outcome:
    Result<Option<HashMap<String, F>>, ReloadError>)
    ensures
        route_file_managers_taken(*old(context), *final(context), outcome),
{
    match context {
        ReloadContext::Configuration(_) => Ok(None),
        ReloadContext::Database(database) => {
            let file_managers = database.take_file_managers()?;
            Ok(Some(file_managers))
        },
    }
}

/// Everything the vehicle routes are rebuilt from.
pub struct VehicleRouteInputs<U, F, Fg, Cc, L, A> {
    /// Where flash files are served from.
    pub flash_files_path: String,
    /// The functional-group configuration of the reload.
    pub functional_group_config: Fg,
    /// The components configuration.
    pub components_config: Cc,
    /// The UDS manager the routes talk to.
    pub ecu_uds: U,
    /// The file managers of the reload, keyed by ECU name.
    pub file_managers: HashMap<String, F>,
    /// The locks held when the routes are rebuilt.
    pub locks: L,
    /// Access to the communication lifecycle.
    pub communication_access: A,
}

/// The route inputs of a reload: for a database reload, the flash-files path,
/// a clone of the reload's functional-group configuration, a clone of the
/// components configuration, a clone of the installed UDS manager, the taken
/// file managers, the current locks and a clone of the communication access;
/// nothing for a configuration reload.
pub open spec fn route_inputs_assembled<U: Clone, G, F, Fg: Clone, Cc: Clone, L, A: Clone>(
    context: ReloadContext<U, G, F, Fg>,
    flash_files_path: String,
    components_config: Cc,
    communication_access: A,
    installed_uds: U,
    file_managers: HashMap<String, F>,
    locks: L,
    inputs: Option<VehicleRouteInputs<U, F, Fg, Cc, L, A>>,
) -> bool {
    match context {
        ReloadContext::Configuration(_) => inputs is None,
        ReloadContext::Database(database) => inputs matches Some(i)
            && i.flash_files_path@ == flash_files_path@
            && cloned(database.functional_group_config, i.functional_group_config)
            && cloned(components_config, i.components_config)
            && cloned(installed_uds, i.ecu_uds)
            && i.file_managers == file_managers
            && i.locks == locks
            && cloned(communication_access, i.communication_access),
    }
}

/// Assembles what the vehicle routes are rebuilt from on a database reload,
/// from the reloadable's own settings, the UDS manager installed now, the
/// file managers taken from the context and the current locks.
pub fn vehicle_route_inputs<U: Clone, G, F, Fg: Clone, Cc: Clone, L, A: Clone>(
    context: &ReloadContext<U, G, F, Fg>,
    flash_files_path: &String,
    components_config: &Cc,
    communication_access: &A,
    installed_uds: &U,
    file_managers: HashMap<String, F>,
    locks: L,
) -> (inputs: Option<VehicleRouteInputs<U, F, Fg, Cc, L, A>>)
    ensures
        route_inputs_assembled(
            *context,
            *flash_files_path,
            *components_config,
            *communication_access,
            *installed_uds,
            file_managers,
            locks,
            inputs,
        ),
{
    match context {
        ReloadContext::Configuration(_) => None,
        ReloadContext::Database(database) => Some(
            VehicleRouteInputs {
                flash_files_path: flash_files_path.clone(),
                functional_group_config: database.functional_group_config.clone(),
                components_config: components_config.clone(),
                ecu_uds: installed_uds.clone(),
                file_managers,
                locks,
                communication_access: communication_access.clone(),
            },
        ),
    }
}

/// Success stays success; a failure becomes a `ReplacementFailure` carrying
/// the router's message.
pub open spec fn route_replacement_mapped(
    replacement: Result<(), String>,
    result: Result<(), ReloadError>,
) -> bool {
    match replacement {
        Ok(_) => result is Ok,
        Err(message) => result matches Err(error) && is_replacement_failure(error, message@),
    }
}

/// The reload outcome of swapping in the rebuilt routes: success, or a
/// `ReplacementFailure` carrying the router's message.
pub fn route_replacement_result(replacement: Result<(), String>) -> (result: Result<(), ReloadError>)
    ensures
        route_replacement_mapped(replacement, result),
{
    match replacement {
        Ok(()) => Ok(()),
        Err(message) => Err(ReloadError::ReplacementFailure(message)),
    }
}


/// Taking the new file managers touches nothing but its own slot: a configuration
/// reload is left as it is and yields nothing; on a database reload the
/// file managers slot ends empty, every other slot and field keeps its value, and
/// the step yields exactly the file managers the slot held, or, if it held none,
/// the `General` error "file managers already installed".
pub proof fn law_take_route_file_managers_takes_only_its_slot<U, G, F, Fg>(
    before: ReloadContext<U, G, F, Fg>,
    after: ReloadContext<U, G, F, Fg>,
    outcome: Result<Option<HashMap<String, F>>, ReloadError>,
)
    requires
        route_file_managers_taken(before, after, outcome),
    ensures
        match before {
            ReloadContext::Configuration(_) => after == before && outcome matches Ok(None),
            ReloadContext::Database(database) => {
                &&& after matches ReloadContext::Database(emptied)
                &&& emptied.file_managers is None
                &&& emptied.uds_manager == database.uds_manager
                &&& emptied.diagnostic_gateway == database.diagnostic_gateway
                &&& emptied.ecu_names == database.ecu_names
                &&& emptied.functional_group_config == database.functional_group_config
                &&& emptied.mdd_paths == database.mdd_paths
                &&& database.file_managers matches Some(replacement) ==> outcome == Ok::<
                    Option<HashMap<String, F>>,
                    ReloadError,
                >(Some(replacement))
                &&& database.file_managers is None ==> (outcome matches Err(error) && is_general(
                    error,
                    "file managers already installed"@,
                ))
            },
        },
{
}


/// On a database reload the route inputs are exactly what they are rebuilt
/// from: the flash-files path with the same characters as the one passed in,
/// the file managers and locks passed in, and clones of the installed UDS
/// manager, of the components configuration, of the communication access and
/// of the reload's functional-group configuration. A configuration reload
/// yields no inputs.
pub proof fn law_route_inputs_are_the_reload_inputs<
    U: Clone,
    G,
    F,
    Fg: Clone,
    Cc: Clone,
    L,
    A: Clone,
>(
    context: ReloadContext<U, G, F, Fg>,
    flash_files_path: String,
    components_config: Cc,
    communication_access: A,
    installed_uds: U,
    file_managers: HashMap<String, F>,
    locks: L,
    inputs: Option<VehicleRouteInputs<U, F, Fg, Cc, L, A>>,
)
    requires
        route_inputs_assembled(
            context,
            flash_files_path,
            components_config,
            communication_access,
            installed_uds,
            file_managers,
            locks,
            inputs,
        ),
    ensures
        match context {
            ReloadContext::Configuration(_) => inputs is None,
            ReloadContext::Database(database) => {
                &&& inputs matches Some(route_inputs)
                &&& route_inputs.flash_files_path@.len() == flash_files_path@.len()
                &&& forall|i: int|
                    0 <= i < flash_files_path@.len() ==> #[trigger] route_inputs.flash_files_path@[i]
                        == flash_files_path@[i]
                &&& route_inputs.file_managers == file_managers
                &&& route_inputs.locks == locks
                &&& cloned(installed_uds, route_inputs.ecu_uds)
                &&& cloned(components_config, route_inputs.components_config)
                &&& cloned(communication_access, route_inputs.communication_access)
                &&& cloned(database.functional_group_config, route_inputs.functional_group_config)
            },
        },
{
}

/// The router's outcome decides the reload's: success stays success, and a
/// failure becomes a `ReplacementFailure` with the router's message.
pub proof fn law_route_replacement_result(replacement: Result<(), String>, result: Result<(), ReloadError>)
    requires
        route_replacement_mapped(replacement, result),
    ensures
        replacement is Ok <==> result is Ok,
        replacement matches Err(message) ==> result matches Err(ReloadError::ReplacementFailure(
            reported,
        )) && reported@ == message@,
{
}

} // verus!
