//! Display settings, with the bounds that keep them sensible.

use crate::geo::Location;
use vstd::prelude::*;

verus! {

/// Shortest refresh interval, in seconds.
pub const MIN_REFRESH_SECONDS: u64 = 10;

/// Refresh interval of a fresh configuration, in seconds.
pub const DEFAULT_REFRESH_SECONDS: u64 = 30;

/// Smallest radar radius: one kilometre, in thousandths.
pub const MIN_RADIUS_KM: u32 = 1_000;

/// Largest radar radius: a hundred kilometres, in thousandths.
pub const MAX_RADIUS_KM: u32 = 100_000;

/// Radar radius of a fresh configuration: eight kilometres, about five miles.
pub const DEFAULT_RADIUS_KM: u32 = 8_000;

/// Shortest trail that a stored configuration may ask for.
pub const MIN_TRAIL_LENGTH: usize = 1;

/// Longest trail that a stored configuration may ask for.
pub const MAX_TRAIL_LENGTH: usize = 50;

/// Trail length of a fresh configuration.
pub const DEFAULT_TRAIL_LENGTH: usize = 10;

/// Credentials for the telemetry service.
#[derive(Clone, Debug, PartialEq, Eq)]
pub struct ApiCredentials {
    pub username: String,
    pub password: String,
}

/// The size of the window, in thousandths of a pixel.
#[derive(Clone, Copy, Debug, PartialEq, Eq, Structural)]
pub struct WindowSize {
    pub width: u32,
    pub height: u32,
}

/// The colour scheme.
#[derive(Clone, Copy, Debug, PartialEq, Eq, Structural)]
pub enum Theme {
    Dark,
    Light,
    Auto,
}

impl Theme {
    pub open spec fn spec_is_dark(&self) -> bool {
        !(self is Light)
    }

    /// Whether the dark palette applies. `Auto` counts as dark.
    #[verifier::when_used_as_spec(spec_is_dark)]
    pub fn is_dark(&self) -> (dark: bool)
        ensures
            dark == self.spec_is_dark(),
    {
        match self {
            Theme::Dark => true,
            Theme::Light => false,
            Theme::Auto => true,
        }
    }

    pub open spec fn spec_name(&self) -> Seq<char> {
        match self {
            Theme::Dark => "Dark"@,
            Theme::Light => "Light"@,
            Theme::Auto => "Auto"@,
        }
    }

    /// The name of the theme as shown in the settings.
    pub fn name(&self) -> (name: &'static str)
        ensures
            name@ == self.spec_name(),
    {
        match self {
            Theme::Dark => "Dark",
            Theme::Light => "Light",
            Theme::Auto => "Auto",
        }
    }
}

/// Everything the user can set. The radar radius is in thousandths of a
/// kilometre.
#[derive(Clone, Debug, PartialEq, Eq)]
pub struct AppConfig {
    pub location: Location,
    pub refresh_interval_seconds: u64,
    pub radar_radius_km: u32,
    pub show_trails: bool,
    pub trail_length: usize,
    pub theme: Theme,
    pub api_credentials: Option<ApiCredentials>,
    pub window_size: Option<WindowSize>,
    pub auto_refresh: bool,
}

impl Default for AppConfig {
    /// San Francisco, refreshed every 30 s, 8 km radius, trails of 10
    /// positions shown, dark theme, no credentials, automatic refresh.
    fn default() -> (config: AppConfig)
        ensures
            config.location.lat == 37_774_900,
            config.location.lon == -122_419_400,
            config.location.name is Some && config.location.name->0@ == "San Francisco"@,
            config.refresh_interval_seconds == DEFAULT_REFRESH_SECONDS,
            config.radar_radius_km == DEFAULT_RADIUS_KM,
            config.show_trails,
            config.trail_length == DEFAULT_TRAIL_LENGTH,
            config.theme == Theme::Dark,
            config.api_credentials is None,
            config.window_size is None,
            config.auto_refresh,
    {
        AppConfig {
            location: Location::san_francisco(),
            refresh_interval_seconds: DEFAULT_REFRESH_SECONDS,
            radar_radius_km: DEFAULT_RADIUS_KM,
            show_trails: true,
            trail_length: DEFAULT_TRAIL_LENGTH,
            theme: Theme::Dark,
            api_credentials: None,
            window_size: None,
            auto_refresh: true,
        }
    }
}

/// The refresh interval that a stored value stands for: the default where
/// the stored one is too short.
pub open spec fn spec_sane_refresh(seconds: u64) -> u64 {
    if seconds < MIN_REFRESH_SECONDS {
        DEFAULT_REFRESH_SECONDS
    } else {
        seconds
    }
}

/// The radar radius that a stored value stands for: the default where the
/// stored one is out of bounds.
pub open spec fn spec_sane_radius(radius_km: u32) -> u32 {
    if radius_km < MIN_RADIUS_KM || radius_km > MAX_RADIUS_KM {
        DEFAULT_RADIUS_KM
    } else {
        radius_km
    }
}

/// The trail length that a stored value stands for: the default where the
/// stored one is out of bounds.
pub open spec fn spec_sane_trail_length(length: usize) -> usize {
    if length < MIN_TRAIL_LENGTH || length > MAX_TRAIL_LENGTH {
        DEFAULT_TRAIL_LENGTH
    } else {
        length
    }
}

/// `radius_km` clamped into `[MIN_RADIUS_KM, MAX_RADIUS_KM]`.
pub open spec fn spec_clamped_radius(radius_km: u32) -> u32 {
    if radius_km < MIN_RADIUS_KM {
        MIN_RADIUS_KM
    } else if radius_km > MAX_RADIUS_KM {
        MAX_RADIUS_KM
    } else {
        radius_km
    }
}

impl AppConfig {
    /// A configuration as read from storage, made sensible: each of refresh
    /// interval, radar radius and trail length that is out of bounds falls
    /// back to its default; everything else is kept.
    pub fn sanitized(self) -> (config: AppConfig)
        ensures
            config == (AppConfig {
                refresh_interval_seconds: spec_sane_refresh(self.refresh_interval_seconds),
                radar_radius_km: spec_sane_radius(self.radar_radius_km),
                trail_length: spec_sane_trail_length(self.trail_length),
                ..self
            }),
            config.refresh_interval_seconds >= MIN_REFRESH_SECONDS,
            MIN_RADIUS_KM <= config.radar_radius_km <= MAX_RADIUS_KM,
            MIN_TRAIL_LENGTH <= config.trail_length <= MAX_TRAIL_LENGTH,
    {
        let mut config = self;
        if config.refresh_interval_seconds < MIN_REFRESH_SECONDS {
            config.refresh_interval_seconds = DEFAULT_REFRESH_SECONDS;
        }
        if config.radar_radius_km < MIN_RADIUS_KM || config.radar_radius_km > MAX_RADIUS_KM {
            config.radar_radius_km = DEFAULT_RADIUS_KM;
        }
        if config.trail_length < MIN_TRAIL_LENGTH || config.trail_length > MAX_TRAIL_LENGTH {
            config.trail_length = DEFAULT_TRAIL_LENGTH;
        }
        config
    }

    /// Move the radar to another reference location.
    pub fn set_location(&mut self, location: Location)
        ensures
            *final(self) == (AppConfig { location, ..*old(self) }),
    {
        self.location = location;
    }

    /// Set the refresh interval, raised to [`MIN_REFRESH_SECONDS`] if shorter.
    pub fn set_refresh_interval(&mut self, seconds: u64)
        ensures
            *final(self) == (AppConfig {
                refresh_interval_seconds: if seconds < MIN_REFRESH_SECONDS {
                    MIN_REFRESH_SECONDS
                } else {
                    seconds
                },
                ..*old(self)
            }),
    {
        self.refresh_interval_seconds = if seconds < MIN_REFRESH_SECONDS {
            MIN_REFRESH_SECONDS
        } else {
            seconds
        };
    }

    /// Set the radar radius, clamped into `[MIN_RADIUS_KM, MAX_RADIUS_KM]`.
    pub fn set_radar_radius(&mut self, radius_km: u32)
        ensures
            *final(self) == (AppConfig {
                radar_radius_km: spec_clamped_radius(radius_km),
                ..*old(self)
            }),
    {
        self.radar_radius_km = if radius_km < MIN_RADIUS_KM {
            MIN_RADIUS_KM
        } else if radius_km > MAX_RADIUS_KM {
            MAX_RADIUS_KM
        } else {
            radius_km
        };
    }

    /// Choose the colour scheme.
    pub fn set_theme(&mut self, theme: Theme)
        ensures
            *final(self) == (AppConfig { theme, ..*old(self) }),
    {
        self.theme = theme;
    }

    /// Set the credentials for the telemetry service.
    pub fn set_api_credentials(&mut self, username: String, password: String)
        ensures
            *final(self) == (AppConfig {
                api_credentials: Some(ApiCredentials { username, password }),
                ..*old(self)
            }),
    {
        self.api_credentials = Some(ApiCredentials { username, password });
    }

    /// Forget the credentials for the telemetry service.
    pub fn clear_api_credentials(&mut self)
        ensures
            *final(self) == (AppConfig { api_credentials: None, ..*old(self) }),
    {
        self.api_credentials = None;
    }

    /// Remember the size of the window, in thousandths of a pixel.
    pub fn set_window_size(&mut self, width: u32, height: u32)
        ensures
            *final(self) == (AppConfig {
                window_size: Some(WindowSize { width, height }),
                ..*old(self)
            }),
    {
        self.window_size = Some(WindowSize { width, height });
    }

    /// Switch the trails on or off.
    pub fn toggle_trails(&mut self)
        ensures
            *final(self) == (AppConfig { show_trails: !old(self).show_trails, ..*old(self) }),
    {
        self.show_trails = !self.show_trails;
    }

    /// Switch the automatic refresh on or off.
    pub fn toggle_auto_refresh(&mut self)
        ensures
            *final(self) == (AppConfig { auto_refresh: !old(self).auto_refresh, ..*old(self) }),
    {
        self.auto_refresh = !self.auto_refresh;
    }
}

} // verus!
