use vstd::prelude::*;

verus! {

/// Configuration for [`SwissEphAstroEngine`].
#[derive(Debug, Clone, PartialEq, Eq)]
pub struct SwissEphConfig {
    ephemeris_path: Option<String>,
}

impl SwissEphConfig {
    /// The configured ephemeris path, as characters, if one was set.
    pub closed spec fn path_view(&self) -> Option<Seq<char>> {
        match self.ephemeris_path {
            Some(p) => Some(p@),
            None => None,
        }
    }

    /// Creates an empty Swiss Ephemeris configuration.
    pub fn new() -> (c: SwissEphConfig)
        ensures
            c.path_view() is None,
    {
        SwissEphConfig { ephemeris_path: None }
    }

    /// Sets the ephemeris path used by the backend.
    pub fn with_ephemeris_path(self, ephemeris_path: &str) -> (c: SwissEphConfig)
        ensures
            c.path_view() == Some(ephemeris_path@),
    {
        SwissEphConfig { ephemeris_path: Some(ephemeris_path.to_owned()) }
    }

    /// The configured ephemeris path, if any.
    pub fn ephemeris_path(&self) -> (p: Option<&str>)
        ensures
            match (p, self.path_view()) {
                (Some(a), Some(b)) => a@ == b,
                (None, None) => true,
                _ => false,
            },
    {
        match &self.ephemeris_path {
            Some(path) => Some(path.as_str()),
            None => None,
        }
    }
}

impl Default for SwissEphConfig {
    fn default() -> (c: SwissEphConfig)
        ensures
            c.path_view() is None,
    {
        SwissEphConfig::new()
    }
}

/// Default engine backed by Swiss Ephemeris; it holds only its configuration.
#[derive(Debug, Clone)]
pub struct SwissEphAstroEngine {
    config: SwissEphConfig,
}

impl SwissEphAstroEngine {
    /// The configuration this engine was created with.
    pub closed spec fn config_view(&self) -> SwissEphConfig {
        self.config
    }

    /// Creates a Swiss Ephemeris-backed engine with the provided config.
    pub fn new(config: SwissEphConfig) -> (e: SwissEphAstroEngine)
        ensures
            e.config_view() == config,
    {
        SwissEphAstroEngine { config }
    }

    /// The configuration this engine was created with.
    pub fn config(&self) -> (c: &SwissEphConfig)
        ensures
            *c == self.config_view(),
    {
        &self.config
    }
}

impl Default for SwissEphAstroEngine {
    fn default() -> (e: SwissEphAstroEngine)
        ensures
            e.config_view().path_view() is None,
    {
        SwissEphAstroEngine::new(SwissEphConfig::new())
    }
}

} // verus!
