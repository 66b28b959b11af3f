//! What a runtime reload hands to the reloadable components.

use std::collections::HashMap;
use std::path::PathBuf;
use vstd::prelude::*;

use crate::error::{general_from, is_general, ReloadError};

verus! {

/// Declares `std::path::PathBuf` to Verus as an opaque type. Nothing is
/// claimed of its values: the reload contexts carry paths without reading them.
#[verifier::external_type_specification]
#[verifier::external_body]
pub struct ExPathBuf(PathBuf);

/// What triggered a runtime reload.
pub enum ReloadContext<Uds, Gateway, File, Functional> {
    /// MDD database files changed.
    Database(Box<DatabaseReloadContext<Uds, Gateway, File, Functional>>),
    /// The application configuration changed.
    Configuration(ConfigReloadContext),
}

/// Newly created vehicle state to install after an MDD change.
///
/// The three component slots are single-use: the component that installs one
/// takes it out, and a second attempt finds the slot empty.
pub struct DatabaseReloadContext<Uds, Gateway, File, Functional> {
    /// Newly created UDS manager, consumed by its updateable.
    pub uds_manager: Option<Uds>,
    /// Newly created diagnostic gateway, consumed by its updateable.
    pub diagnostic_gateway: Option<Gateway>,
    /// File managers keyed by ECU name, consumed during route replacement.
    pub file_managers: Option<HashMap<String, File>>,
    /// ECU names derived from the new UDS manager.
    pub ecu_names: Vec<String>,
    /// Functional-group configuration loaded with the new components.
    pub functional_group_config: Functional,
    /// MDD paths used to create the new components.
    pub mdd_paths: Vec<PathBuf>,
}

/// Configuration reload context.
pub struct ConfigReloadContext {
    /// Path to the newly active configuration file.
    pub config_path: PathBuf,
}

/// Message of the error returned when the UDS manager slot was already emptied.
pub open spec fn uds_manager_taken_message() -> Seq<char> {
    "UDS manager already installed"@
}

/// Message of the error returned when the diagnostic gateway slot was already emptied.
pub open spec fn gateway_taken_message() -> Seq<char> {
    "diagnostic gateway already installed"@
}

/// Message of the error returned when the file manager slot was already emptied.
pub open spec fn file_managers_taken_message() -> Seq<char> {
    "file managers already installed"@
}

/// Taking a single-use slot: a filled slot hands out its value and is left
/// empty; an empty slot stays empty and yields a `General` error reading `message`.
pub open spec fn took_slot<T>(
    before: Option<T>,
    after: Option<T>,
    result: Result<T, ReloadError>,
    message: Seq<char>,
) -> bool {
    &&& after is None
    &&& match before {
        Some(value) => result == Ok::<T, ReloadError>(value),
        None => result matches Err(error) && is_general(error, message),
    }
}

/// Taking from a filled slot yields exactly the value it held; taking from an
/// empty one yields the `General` error with the slot's message; either way
/// the slot ends empty.
pub proof fn law_took_slot<T>(
    before: Option<T>,
    after: Option<T>,
    result: Result<T, ReloadError>,
    message: Seq<char>,
)
    requires
        took_slot(before, after, result, message),
    ensures
        after is None,
        before matches Some(value) ==> result == Ok::<T, ReloadError>(value),
        before is None ==> (result matches Err(ReloadError::General(reported)) && reported@
            == message),
{
}

/// A slot hands out its component once: whatever the first take gave, a
/// second take from the slot it left fails with the same "already installed" error.
pub proof fn law_slot_single_use<T>(
    before: Option<T>,
    between: Option<T>,
    after: Option<T>,
    first: Result<T, ReloadError>,
    second: Result<T, ReloadError>,
    message: Seq<char>,
)
    requires
        took_slot(before, between, first, message),
        took_slot(between, after, second, message),
    ensures
        second matches Err(error) && is_general(error, message),
        after is None,
{
}

/// The context of a database reload carrying these new components, each in
/// its own filled slot.
pub open spec fn database_reload_of<Uds, Gateway, File, Functional>(
    context: ReloadContext<Uds, Gateway, File, Functional>,
    uds_manager: Uds,
    diagnostic_gateway: Gateway,
    file_managers: HashMap<String, File>,
    ecu_names: Vec<String>,
    functional_group_config: Functional,
    mdd_paths: Vec<PathBuf>,
) -> bool {
    context matches ReloadContext::Database(database) && *database == (DatabaseReloadContext {
        uds_manager: Some(uds_manager),
        diagnostic_gateway: Some(diagnostic_gateway),
        file_managers: Some(file_managers),
        ecu_names,
        functional_group_config,
        mdd_paths,
    })
}

/// A database reload context starts with all three slots filled with the
/// new components, and carries the reload's ECU names, functional-group
/// configuration and MDD paths unchanged.
pub proof fn law_database_reload_fills_every_slot<Uds, Gateway, File, Functional>(
    context: ReloadContext<Uds, Gateway, File, Functional>,
    uds_manager: Uds,
    diagnostic_gateway: Gateway,
    file_managers: HashMap<String, File>,
    ecu_names: Vec<String>,
    functional_group_config: Functional,
    mdd_paths: Vec<PathBuf>,
)
    requires
        database_reload_of(
            context,
            uds_manager,
            diagnostic_gateway,
            file_managers,
            ecu_names,
            functional_group_config,
            mdd_paths,
        ),
    ensures
        ({
            &&& context matches ReloadContext::Database(database)
            &&& database.uds_manager == Some(uds_manager)
            &&& database.diagnostic_gateway == Some(diagnostic_gateway)
            &&& database.file_managers == Some(file_managers)
            &&& database.ecu_names == ecu_names
            &&& database.functional_group_config == functional_group_config
            &&& database.mdd_paths == mdd_paths
        }),
{
}

impl<Uds, Gateway, File, Functional> ReloadContext<Uds, Gateway, File, Functional> {
    /// The context of a database reload, with all three component slots filled.
    pub fn database(
        uds_manager: Uds,
        diagnostic_gateway: Gateway,
        file_managers: HashMap<String, File>,
        ecu_names: Vec<String>,
        functional_group_config: Functional,
        mdd_paths: Vec<PathBuf>,
    ) -> (context: Self)
        ensures
            database_reload_of(
                context,
                uds_manager,
                diagnostic_gateway,
                file_managers,
                ecu_names,
                functional_group_config,
                mdd_paths,
            ),
    {
        ReloadContext::Database(
            Box::new(
                DatabaseReloadContext {
                    uds_manager: Some(uds_manager),
                    diagnostic_gateway: Some(diagnostic_gateway),
                    file_managers: Some(file_managers),
                    ecu_names,
                    functional_group_config,
                    mdd_paths,
                },
            ),
        )
    }

    /// The context of a configuration reload from `config_path`.
    pub fn configuration(config_path: PathBuf) -> (context: Self)
        ensures
            context == ReloadContext::<Uds, Gateway, File, Functional>::Configuration(
                ConfigReloadContext { config_path },
            ),
    {
        ReloadContext::Configuration(ConfigReloadContext { config_path })
    }
}

impl<Uds, Gateway, File, Functional> DatabaseReloadContext<Uds, Gateway, File, Functional> {
    /// Takes the new UDS manager out of its slot.
    pub fn take_uds_manager(&mut self) -> (result: Result<Uds, ReloadError>)
        ensures
            took_slot(old(self).uds_manager, final(self).uds_manager, result, uds_manager_taken_message()),
            *final(self) == (DatabaseReloadContext { uds_manager: None, ..*old(self) }),
    {
        match self.uds_manager.take() {
            Some(manager) => Ok(manager),
            None => Err(general_from("UDS manager already installed")),
        }
    }

    /// Takes the new diagnostic gateway out of its slot.
    pub fn take_diagnostic_gateway(&mut self) -> (result: Result<Gateway, ReloadError>)
        ensures
            took_slot(old(self).diagnostic_gateway, final(self).diagnostic_gateway, result, gateway_taken_message()),
            *final(self) == (DatabaseReloadContext { diagnostic_gateway: None, ..*old(self) }),
    {
        match self.diagnostic_gateway.take() {
            Some(gateway) => Ok(gateway),
            None => Err(general_from("diagnostic gateway already installed")),
        }
    }

    /// Takes the new file managers out of their slot.
    pub fn take_file_managers(&mut self) -> (result: Result<HashMap<String, File>, ReloadError>)
        ensures
            took_slot(old(self).file_managers, final(self).file_managers, result, file_managers_taken_message()),
            *final(self) == (DatabaseReloadContext { file_managers: None, ..*old(self) }),
    {
        match self.file_managers.take() {
            Some(file_managers) => Ok(file_managers),
            None => Err(general_from("file managers already installed")),
        }
    }
}

} // verus!
