//! When to fetch telemetry, and from where.
//!
//! The host loop owns the clock and the network. Once per tick it tells
//! these functions how long ago the last fetch began and whether one is
//! still under way, performs the action it is handed, and shows the
//! countdown.

use crate::config::{ApiCredentials, AppConfig};
use vstd::prelude::*;

verus! {

/// What the host loop does next.
#[derive(Clone, Copy, Debug, PartialEq, Eq, Structural)]
pub enum RefreshAction {
    /// Start fetching a new snapshot, and restart the timer.
    Fetch,
    /// Keep showing what is there.
    Wait,
}

/// Where telemetry comes from.
#[derive(Clone, Debug, PartialEq, Eq)]
pub enum TelemetrySource {
    /// The live service, with the credentials to use.
    Live(ApiCredentials),
    /// The stand-in source.
    Mock,
}

/// Whether an automatic refresh is due: automatic refresh is switched on
/// and the interval has passed.
pub open spec fn spec_refresh_due(config: AppConfig, elapsed_seconds: u64) -> bool {
    config.auto_refresh && elapsed_seconds >= config.refresh_interval_seconds
}

/// What to do on a tick: fetch when an automatic refresh is due, unless a
/// fetch is still under way.
pub open spec fn spec_on_tick(
    config: AppConfig,
    elapsed_seconds: u64,
    is_loading: bool,
) -> RefreshAction {
    if spec_refresh_due(config, elapsed_seconds) && !is_loading {
        RefreshAction::Fetch
    } else {
        RefreshAction::Wait
    }
}

/// What to do when the user asks for a refresh: fetch, unless a fetch is
/// still under way.
pub open spec fn spec_on_request(is_loading: bool) -> RefreshAction {
    if is_loading {
        RefreshAction::Wait
    } else {
        RefreshAction::Fetch
    }
}

/// Seconds until the next automatic refresh; zero once it is due.
pub open spec fn spec_seconds_until_refresh(config: AppConfig, elapsed_seconds: u64) -> u64 {
    if elapsed_seconds >= config.refresh_interval_seconds {
        0
    } else {
        (config.refresh_interval_seconds - elapsed_seconds) as u64
    }
}

/// What to do on a tick, `elapsed_seconds` after the last fetch began.
pub fn on_tick(config: &AppConfig, elapsed_seconds: u64, is_loading: bool) -> (action:
    RefreshAction)
    ensures
        action == spec_on_tick(*config, elapsed_seconds, is_loading),
{
    if config.auto_refresh && elapsed_seconds >= config.refresh_interval_seconds && !is_loading {
        RefreshAction::Fetch
    } else {
        RefreshAction::Wait
    }
}

/// What to do when the user asks for a refresh.
#[verifier::when_used_as_spec(spec_on_request)]
pub fn on_request(is_loading: bool) -> (action: RefreshAction)
    ensures
        action == spec_on_request(is_loading),
{
    if is_loading {
        RefreshAction::Wait
    } else {
        RefreshAction::Fetch
    }
}

/// Seconds until the next automatic refresh; zero once it is due.
pub fn seconds_until_refresh(config: &AppConfig, elapsed_seconds: u64) -> (seconds: u64)
    ensures
        seconds == spec_seconds_until_refresh(*config, elapsed_seconds),
{
    if elapsed_seconds >= config.refresh_interval_seconds {
        0
    } else {
        config.refresh_interval_seconds - elapsed_seconds
    }
}

/// The telemetry source for a configuration: the live service if
/// credentials are set, the stand-in source otherwise.
pub fn telemetry_source(config: &AppConfig) -> (source: TelemetrySource)
    ensures
        match config.api_credentials {
            Some(credentials) => source matches TelemetrySource::Live(c) && c.username@
                == credentials.username@ && c.password@ == credentials.password@,
            None => source == TelemetrySource::Mock,
        },
{
    match &config.api_credentials {
        Some(credentials) => TelemetrySource::Live(
            ApiCredentials {
                username: credentials.username.clone(),
                password: credentials.password.clone(),
            },
        ),
        None => TelemetrySource::Mock,
    }
}

} // verus!
