//! What a run is told before it starts: which record to keep in sync, in
//! which zone, and with which credential.

use crate::record::text_view;
use vstd::prelude::*;

verus! {

/// Why a run cannot start.
#[derive(Debug, Clone, Copy, PartialEq, Eq)]
pub enum ConfigError {
    /// The record name is empty.
    EmptyName,
    /// The zone identifier is empty.
    EmptyZone,
    /// No credential is available.
    MissingCredential,
}

/// The settings of a run. A value of this type has passed the checks of
/// [`Config::new`]: its record name and its zone are not empty.
#[derive(Debug, PartialEq)]
pub struct Config {
    name: String,
    zone: String,
    token: String,
}

/// What a [`Config`] holds, as mathematical values.
pub ghost struct ConfigView {
    pub name: Seq<char>,
    pub zone: Seq<char>,
    pub token: Seq<char>,
}

/// The settings that the three inputs make, or the first reason why they make
/// none: the name is looked at first, then the zone, then the credential.
pub open spec fn checked(name: Seq<char>, zone: Seq<char>, token: Option<Seq<char>>) -> Result<
    ConfigView,
    ConfigError,
> {
    if name.len() == 0 {
        Err(ConfigError::EmptyName)
    } else if zone.len() == 0 {
        Err(ConfigError::EmptyZone)
    } else {
        match token {
            None => Err(ConfigError::MissingCredential),
            Some(token) => Ok(ConfigView { name, zone, token }),
        }
    }
}

impl View for Config {
    type V = ConfigView;

    closed spec fn view(&self) -> ConfigView {
        ConfigView { name: self.name@, zone: self.zone@, token: self.token@ }
    }
}

/// The view of what [`Config::new`] returns.
pub open spec fn made_view(made: Result<Config, ConfigError>) -> Result<ConfigView, ConfigError> {
    match made {
        Ok(config) => Ok(config@),
        Err(reason) => Err(reason),
    }
}

impl Config {
    #[verifier::type_invariant]
    spec fn is_valid(&self) -> bool {
        self.name@.len() > 0 && self.zone@.len() > 0
    }

    /// Checks the inputs of a run. An empty `name`, an empty `zone` and an
    /// absent `token` are refused, in this order; an empty `token` is not.
    pub fn new(name: String, zone: String, token: Option<String>) -> (made: Result<
        Config,
        ConfigError,
    >)
        ensures
            made_view(made) == checked(name@, zone@, text_view(token)),
    {
        if name.as_str().is_empty() {
            return Err(ConfigError::EmptyName);
        }
        if zone.as_str().is_empty() {
            return Err(ConfigError::EmptyZone);
        }
        match token {
            None => Err(ConfigError::MissingCredential),
            Some(token) => Ok(Config { name, zone, token }),
        }
    }

    /// The name of the record to keep in sync. It is not empty.
    pub fn name(&self) -> (name: &String)
        ensures
            name@ == self@.name,
            name@.len() > 0,
    {
        proof {
            use_type_invariant(self);
        }
        &self.name
    }

    /// The identifier of the zone that holds the record. It is not empty.
    pub fn zone(&self) -> (zone: &String)
        ensures
            zone@ == self@.zone,
            zone@.len() > 0,
    {
        proof {
            use_type_invariant(self);
        }
        &self.zone
    }

    /// The credential for the provider's API.
    pub fn token(&self) -> (token: &String)
        ensures
            token@ == self@.token,
    {
        &self.token
    }
}

impl Clone for Config {
    fn clone(&self) -> (copy: Self)
        ensures
            copy@ == self@,
    {
        proof {
            use_type_invariant(self);
        }
        Config { name: self.name.clone(), zone: self.zone.clone(), token: self.token.clone() }
    }
}

} // verus!
