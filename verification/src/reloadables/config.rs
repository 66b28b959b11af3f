//! Replacing the application configuration.

use std::path::PathBuf;
use vstd::prelude::*;

use crate::error::{is_general, ReloadError};
use crate::updateable::ReloadContext;

verus! {

/// The configuration is replaced first.
pub const CONFIG_PRIORITY: u32 = 10;

/// The notification priority of the configuration component.
pub fn config_priority() -> (priority: u32)
    ensures
        priority == CONFIG_PRIORITY,
{
    CONFIG_PRIORITY
}

/// Why the new configuration could not be loaded.
#[derive(Debug, PartialEq, Eq)]
pub enum ConfigLoadFailure {
    /// The file could not be read; the message says why.
    Read(String),
    /// The file's content is not a valid configuration; the message says why.
    Parse(String),
}

/// Message of the error returned when the configuration file could not be read.
pub open spec fn read_failure_message(detail: Seq<char>) -> Seq<char> {
    "Failed to read config: "@ + detail
}

/// Message of the error returned when the configuration file could not be parsed.
pub open spec fn parse_failure_message(detail: Seq<char>) -> Seq<char> {
    "Failed to parse config: "@ + detail
}

/// A configuration reload loads from its own path; a database reload from none.
pub open spec fn configuration_path_of<U, G, F, Fg>(
    context: ReloadContext<U, G, F, Fg>,
    path: Option<&PathBuf>,
) -> bool {
    match context {
        ReloadContext::Configuration(config) => path matches Some(p) && *p == config.config_path,
        ReloadContext::Database(_) => path is None,
    }
}

/// A load failure is reported as a `General` error saying whether reading or
/// parsing failed, followed by the cause.
pub open spec fn load_failure_reported(failure: ConfigLoadFailure, error: ReloadError) -> bool {
    match failure {
        ConfigLoadFailure::Read(detail) => is_general(error, read_failure_message(detail@)),
        ConfigLoadFailure::Parse(detail) => is_general(error, parse_failure_message(detail@)),
    }
}

/// A loaded configuration replaces the current one and the reload succeeds;
/// a failed load keeps the current one and reports the failure.
pub open spec fn configuration_installed<C>(
    before: C,
    loaded: Result<C, ConfigLoadFailure>,
    after: C,
    result: Result<(), ReloadError>,
) -> bool {
    match loaded {
        Ok(config) => result is Ok && after == config,
        Err(failure) => result matches Err(error) && load_failure_reported(failure, error) && after
            == before,
    }
}

/// The file to load the new configuration from: that of a configuration
/// reload; none for a database reload, which leaves the configuration alone.
pub fn configuration_path<U, G, F, Fg>(context: &ReloadContext<U, G, F, Fg>) -> (path: Option<
    &PathBuf,
>)
    ensures
        configuration_path_of(*context, path),
{
    match context {
        ReloadContext::Configuration(config) => Some(&config.config_path),
        ReloadContext::Database(_) => None,
    }
}

/// The reload error for a configuration that could not be loaded: a
/// `General` error that says whether reading or parsing failed, followed by
/// the cause.
pub fn config_load_error(failure: ConfigLoadFailure) -> (error: ReloadError)
    ensures
        load_failure_reported(failure, error),
{
    match failure {
        ConfigLoadFailure::Read(detail) => {
            ReloadError::General(String::from_str("Failed to read config: ").concat(detail.as_str()))
        },
        ConfigLoadFailure::Parse(detail) => {
            ReloadError::General(
                String::from_str("Failed to parse config: ").concat(detail.as_str()),
            )
        },
    }
}

/// Installs a freshly loaded configuration in `current`; if loading failed,
/// keeps `current` and fails the reload with [`config_load_error`].
pub fn install_configuration<C>(current: &mut C, loaded: Result<C, ConfigLoadFailure>) -> (result:
    Result<(), ReloadError>)
    ensures
        configuration_installed(*old(current), loaded, *final(current), result),
{
    match loaded {
        Ok(config) => {
            *current = config;
            Ok(())
        },
        Err(failure) => Err(config_load_error(failure)),
    }
}


/// A configuration reload is loaded from exactly its own path; a database
/// reload loads no configuration.
pub proof fn law_configuration_path<U, G, F, Fg>(
    context: ReloadContext<U, G, F, Fg>,
    path: Option<&PathBuf>,
)
    requires
        configuration_path_of(context, path),
    ensures
        context is Database ==> path is None,
        context matches ReloadContext::Configuration(config) ==> (path matches Some(p) && *p
            == config.config_path),
{
}

/// A configuration that loaded replaces the current one and the reload
/// succeeds; one that failed to load leaves the current configuration as it
/// was and fails the reload with a `General` error whose message is
/// "Failed to read config: " or "Failed to parse config: " followed by the
/// cause.
pub proof fn law_configuration_install<C>(
    before: C,
    loaded: Result<C, ConfigLoadFailure>,
    after: C,
    result: Result<(), ReloadError>,
)
    requires
        configuration_installed(before, loaded, after, result),
    ensures
        loaded matches Ok(config) ==> result is Ok && after == config,
        loaded is Err ==> result is Err && after == before,
        loaded matches Err(ConfigLoadFailure::Read(detail)) ==> (result matches Err(
            ReloadError::General(message),
        ) && message@ == "Failed to read config: "@ + detail@),
        loaded matches Err(ConfigLoadFailure::Parse(detail)) ==> (result matches Err(
            ReloadError::General(message),
        ) && message@ == "Failed to parse config: "@ + detail@),
{
}

/// The error for a failed load names the failed stage and then the cause.
pub proof fn law_load_failure_message(failure: ConfigLoadFailure, error: ReloadError)
    requires
        load_failure_reported(failure, error),
    ensures
        failure matches ConfigLoadFailure::Read(detail) ==> (error matches ReloadError::General(
            message,
        ) && message@ == "Failed to read config: "@ + detail@),
        failure matches ConfigLoadFailure::Parse(detail) ==> (error matches ReloadError::General(
            message,
        ) && message@ == "Failed to parse config: "@ + detail@),
{
}

} // verus!
