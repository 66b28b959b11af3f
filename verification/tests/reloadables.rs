use std::collections::HashMap;
use std::path::PathBuf;

use cda_runtime_update::error::{general_from, ReloadError};
use cda_runtime_update::reloadables::config::{
    config_load_error, configuration_path, install_configuration, ConfigLoadFailure,
    config_priority, CONFIG_PRIORITY,
};
use cda_runtime_update::reloadables::gateway::{gateway_priority, gateway_replacement, GATEWAY_PRIORITY};
use cda_runtime_update::reloadables::lock_provider::{
    lock_provider_entries, lock_provider_priority, lock_update_result, LOCK_PROVIDER_PRIORITY,
};
use cda_runtime_update::reloadables::replace_installed;
use cda_runtime_update::reloadables::uds_manager::{
    uds_manager_priority, uds_manager_replacement, UDS_MANAGER_PRIORITY,
};
use cda_runtime_update::reloadables::vehicle_routes::{
    route_replacement_result, take_route_file_managers, vehicle_route_inputs,
    vehicle_routes_priority, VEHICLE_ROUTES_PRIORITY,
};
use cda_runtime_update::updateable::ReloadContext;

#[derive(Debug, Clone, PartialEq)]
struct Component {
    id: u8,
}

type Context = ReloadContext<Component, Component, u8, ()>;

fn database_context() -> Context {
    let mut file_managers = HashMap::new();
    file_managers.insert("ecu_a".to_owned(), 7u8);
    ReloadContext::database(
        Component { id: 2 },
        Component { id: 2 },
        file_managers,
        vec!["ecu_a".to_owned(), "ecu_b".to_owned()],
        (),
        vec![PathBuf::from("vehicle.mdd")],
    )
}

fn configuration_context() -> Context {
    ReloadContext::configuration(PathBuf::from("config.toml"))
}

struct Config {
    value: u8,
}

#[test]
fn reads_and_replaces_configuration() {
    let mut config = Config { value: 1 };
    let context = configuration_context();

    let path = configuration_path(&context).unwrap();
    assert_eq!(path, &PathBuf::from("config.toml"));
    let parsed: HashMap<String, u8> = toml::from_str("value = 2\n").unwrap();
    let value = parsed["value"];

    install_configuration(&mut config, Ok(Config { value })).unwrap();

    assert_eq!(config.value, 2);
}

#[test]
fn configuration_is_left_alone_on_database_reload() {
    assert!(configuration_path(&database_context()).is_none());
}

#[test]
fn unreadable_configuration_is_kept_and_reported() {
    let mut config = Config { value: 1 };
    let result = install_configuration(
        &mut config,
        Err(ConfigLoadFailure::Read("No such file or directory".to_owned())),
    );

    assert_eq!(
        result,
        Err(ReloadError::General(
            "Failed to read config: No such file or directory".to_owned()
        ))
    );
    assert_eq!(config.value, 1);
}

#[test]
fn unparsable_configuration_is_kept_and_reported() {
    let mut config = Config { value: 1 };
    let detail = toml::from_str::<toml::Table>("value = ").unwrap_err().to_string();
    let result = install_configuration(&mut config, Err(ConfigLoadFailure::Parse(detail.clone())));

    assert_eq!(
        result,
        Err(ReloadError::General(format!("Failed to parse config: {detail}")))
    );
    assert_eq!(config.value, 1);
    assert_eq!(
        config_load_error(ConfigLoadFailure::Parse("x".to_owned())),
        ReloadError::General("Failed to parse config: x".to_owned())
    );
}

#[test]
fn replaces_gateway_and_shuts_down_old_instance() {
    let mut gateway = Component { id: 1 };
    let mut context = database_context();

    let replacement = gateway_replacement(&mut context).unwrap().unwrap();
    let old = replace_installed(&mut gateway, replacement);

    assert_eq!(gateway.id, 2);
    // The replaced gateway is handed back to be shut down.
    assert_eq!(old.id, 1);
}

#[test]
fn ignores_configuration_reload() {
    let gateway = Component { id: 1 };
    let mut context = configuration_context();

    assert!(gateway_replacement(&mut context).unwrap().is_none());
    assert_eq!(gateway.id, 1);
}

#[test]
fn second_gateway_installation_fails() {
    let mut context = database_context();

    assert!(gateway_replacement(&mut context).unwrap().is_some());
    assert_eq!(
        gateway_replacement(&mut context).unwrap_err(),
        ReloadError::General("diagnostic gateway already installed".to_owned())
    );
}

#[test]
fn replaces_manager_and_shuts_down_old_instance() {
    let mut manager = Component { id: 1 };
    let mut context = database_context();

    let replacement = uds_manager_replacement(&mut context).unwrap().unwrap();
    let old = replace_installed(&mut manager, replacement);

    assert_eq!(manager.id, 2);
    assert_eq!(old.id, 1);
}

#[test]
fn second_uds_manager_installation_fails() {
    let mut context = database_context();

    uds_manager_replacement(&mut context).unwrap();
    assert_eq!(
        uds_manager_replacement(&mut context).unwrap_err(),
        ReloadError::General("UDS manager already installed".to_owned())
    );
    // The other slots are untouched.
    assert!(gateway_replacement(&mut context).unwrap().is_some());
}

#[test]
fn uds_manager_ignores_configuration_reload() {
    let mut context = configuration_context();

    assert!(uds_manager_replacement(&mut context).unwrap().is_none());
}

#[test]
fn lock_provider_tracks_new_ecus() {
    let entries = lock_provider_entries(&database_context()).unwrap();

    assert_eq!(entries, ["ecu_a", "ecu_b"]);
    assert!(lock_provider_entries(&configuration_context()).is_none());
}

#[test]
fn lock_provider_errors_become_general_errors() {
    assert_eq!(lock_update_result(Ok(())), Ok(()));
    assert_eq!(
        lock_update_result(Err("ecu locked".to_owned())),
        Err(ReloadError::General("ecu locked".to_owned()))
    );
}

#[test]
fn routes_take_the_file_managers_once() {
    let mut context = database_context();

    let file_managers = take_route_file_managers(&mut context).unwrap().unwrap();
    assert_eq!(file_managers.get("ecu_a"), Some(&7));
    assert_eq!(
        take_route_file_managers(&mut context).unwrap_err(),
        ReloadError::General("file managers already installed".to_owned())
    );
    assert!(take_route_file_managers(&mut configuration_context())
        .unwrap()
        .is_none());
}

#[test]
fn route_replacement_errors_are_replacement_failures() {
    assert_eq!(route_replacement_result(Ok(())), Ok(()));
    assert_eq!(
        route_replacement_result(Err("handle unknown".to_owned())),
        Err(ReloadError::ReplacementFailure("handle unknown".to_owned()))
    );
}

#[test]
fn routes_are_rebuilt_after_their_inputs() {
    assert_eq!(CONFIG_PRIORITY, 10);
    assert_eq!(GATEWAY_PRIORITY, 10);
    assert_eq!(UDS_MANAGER_PRIORITY, 20);
    assert_eq!(LOCK_PROVIDER_PRIORITY, 30);
    assert_eq!(VEHICLE_ROUTES_PRIORITY, 40);
    assert_eq!(config_priority(), 10);
    assert_eq!(gateway_priority(), 10);
    assert_eq!(uds_manager_priority(), 20);
    assert_eq!(lock_provider_priority(), 30);
    assert_eq!(vehicle_routes_priority(), 40);
}

#[test]
fn general_errors_carry_their_message() {
    assert_eq!(general_from("boom"), ReloadError::General("boom".to_owned()));
}

#[test]
fn routes_are_built_from_the_installed_uds_manager() {
    let mut installed = Component { id: 1 };
    let mut context = database_context();

    let replacement = uds_manager_replacement(&mut context).unwrap().unwrap();
    let old = replace_installed(&mut installed, replacement);
    assert_eq!(old.id, 1);
    let file_managers = take_route_file_managers(&mut context).unwrap().unwrap();

    let inputs = vehicle_route_inputs(
        &context,
        &"/flash".to_owned(),
        &vec!["component".to_owned()],
        &"communication".to_owned(),
        &installed,
        file_managers,
        3u32,
    )
    .unwrap();

    assert_eq!(inputs.ecu_uds.id, 2);
    assert_eq!(inputs.flash_files_path, "/flash");
    assert_eq!(inputs.functional_group_config, ());
    assert_eq!(inputs.components_config, ["component"]);
    assert_eq!(inputs.file_managers.get("ecu_a"), Some(&7));
    assert_eq!(inputs.locks, 3);
    assert_eq!(inputs.communication_access, "communication");
}

#[test]
fn route_inputs_ignore_configuration_reload() {
    let inputs = vehicle_route_inputs(
        &configuration_context(),
        &"/flash".to_owned(),
        &(),
        &(),
        &Component { id: 1 },
        HashMap::new(),
        (),
    );

    assert!(inputs.is_none());
}
