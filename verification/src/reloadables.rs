//! The steps that the reloadable components take on a reload: each installs
//! its own part of the new state and leaves the rest of the context alone.

use vstd::prelude::*;

pub mod config;
pub mod gateway;
pub mod lock_provider;
pub mod uds_manager;
pub mod vehicle_routes;

use self::config::CONFIG_PRIORITY;
use self::gateway::GATEWAY_PRIORITY;
use self::lock_provider::LOCK_PROVIDER_PRIORITY;
use self::uds_manager::UDS_MANAGER_PRIORITY;
use self::gateway::gateway_taken;
use self::uds_manager::uds_manager_taken;
use self::vehicle_routes::{
    route_file_managers_taken, route_inputs_assembled, VehicleRouteInputs, VEHICLE_ROUTES_PRIORITY,
};
use crate::error::ReloadError;
use crate::updateable::ReloadContext;
use std::collections::HashMap;

verus! {

/// `replacement` took the place of `before`, now `after`, and `previous` is
/// what it replaced.
pub open spec fn replaced_installed<T>(before: T, replacement: T, after: T, previous: T) -> bool {
    after == replacement && previous == before
}

/// Puts `replacement` in place of the installed component and hands back the
/// component it replaced, for the caller to shut down.
pub fn replace_installed<T>(installed: &mut T, replacement: T) -> (previous: T)
    ensures
        replaced_installed(*old(installed), replacement, *final(installed), previous),
{
    let mut previous = replacement;
    std::mem::swap(installed, &mut previous);
    previous
}

/// The vehicle routes are rebuilt last: after the new UDS manager, whose
/// handle they are built from, and after the lock provider learned the new
/// ECUs, whose locks they carry over; the gateway and the configuration come
/// before the UDS manager.
pub proof fn law_routes_rebuilt_last()
    ensures
        UDS_MANAGER_PRIORITY < VEHICLE_ROUTES_PRIORITY,
        LOCK_PROVIDER_PRIORITY < VEHICLE_ROUTES_PRIORITY,
        GATEWAY_PRIORITY < UDS_MANAGER_PRIORITY,
        CONFIG_PRIORITY < UDS_MANAGER_PRIORITY,
{
}

/// In a database reload, the vehicle routes are built from the UDS manager
/// the same reload installed: when the UDS manager step takes the new manager
/// from the context and installs it in the shared handle, and the route step
/// (which comes later) takes the file managers and assembles its inputs from
/// that handle, the routes get a clone of the new manager (not of the one it
/// replaced, which is handed back for shutdown), the reload's file managers
/// and a clone of its functional-group configuration, and both slots end empty.
pub proof fn law_routes_use_installed_uds_manager<
    U: Clone,
    G,
    F,
    Fg: Clone,
    Cc: Clone,
    L,
    A: Clone,
>(
    start: ReloadContext<U, G, F, Fg>,
    after_uds: ReloadContext<U, G, F, Fg>,
    after_routes: ReloadContext<U, G, F, Fg>,
    uds_outcome: Result<Option<U>, ReloadError>,
    replacement: U,
    installed_before: U,
    installed: U,
    previous: U,
    files_outcome: Result<Option<HashMap<String, F>>, ReloadError>,
    file_managers: HashMap<String, F>,
    flash_files_path: String,
    components_config: Cc,
    communication_access: A,
    locks: L,
    inputs: Option<VehicleRouteInputs<U, F, Fg, Cc, L, A>>,
)
    requires
        uds_manager_taken(start, after_uds, uds_outcome),
        uds_outcome == Ok::<Option<U>, ReloadError>(Some(replacement)),
        replaced_installed(installed_before, replacement, installed, previous),
        route_file_managers_taken(after_uds, after_routes, files_outcome),
        files_outcome == Ok::<Option<HashMap<String, F>>, ReloadError>(Some(file_managers)),
        route_inputs_assembled(
            after_routes,
            flash_files_path,
            components_config,
            communication_access,
            installed,
            file_managers,
            locks,
            inputs,
        ),
    ensures
        UDS_MANAGER_PRIORITY < VEHICLE_ROUTES_PRIORITY,
        previous == installed_before,
        ({
            &&& start matches ReloadContext::Database(database)
            &&& database.uds_manager == Some(replacement)
            &&& database.file_managers == Some(file_managers)
            &&& inputs matches Some(route_inputs)
            &&& cloned(replacement, route_inputs.ecu_uds)
            &&& route_inputs.file_managers == file_managers
            &&& cloned(database.functional_group_config, route_inputs.functional_group_config)
        }),
        after_routes matches ReloadContext::Database(emptied) && emptied.uds_manager is None
            && emptied.file_managers is None,
{
}


/// Replacing an installed component installs exactly the replacement and
/// hands back exactly what was installed before.
pub proof fn law_replace_installed<T>(before: T, replacement: T, after: T, previous: T)
    requires
        replaced_installed(before, replacement, after, previous),
    ensures
        after == replacement,
        previous == before,
{
}

/// The gateway step, which comes first on a database reload, does not
/// disturb the UDS manager: the UDS manager step that follows it still takes
/// exactly the new manager the reload brought.
pub proof fn law_gateway_step_leaves_uds_manager<U, G, F, Fg>(
    start: ReloadContext<U, G, F, Fg>,
    after_gateway: ReloadContext<U, G, F, Fg>,
    after_uds: ReloadContext<U, G, F, Fg>,
    gateway_outcome: Result<Option<G>, ReloadError>,
    uds_outcome: Result<Option<U>, ReloadError>,
    manager: U,
)
    requires
        gateway_taken(start, after_gateway, gateway_outcome),
        uds_manager_taken(after_gateway, after_uds, uds_outcome),
        start matches ReloadContext::Database(database) && database.uds_manager == Some(manager),
    ensures
        uds_outcome == Ok::<Option<U>, ReloadError>(Some(manager)),
        GATEWAY_PRIORITY < UDS_MANAGER_PRIORITY,
{
    self::gateway::law_gateway_replacement_takes_only_its_slot(start, after_gateway, gateway_outcome);
    self::uds_manager::law_uds_manager_replacement_takes_only_its_slot(after_gateway, after_uds, uds_outcome);
}

} // verus!
