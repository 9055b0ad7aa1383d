//! Resolution of cloud credentials into a session description.
//!
//! Credentials come from one of two places: the entry of a named cloud in a
//! `clouds.yaml` configuration file, or a fixed set of `OS_*` environment
//! variables. Either way the outcome is a [`Session`]: a password identity,
//! optionally scoped to a project, and the endpoint filters to use with it.
//!
//! Nothing here touches the file system or the process environment. The
//! caller looks at the candidate places and hands over what it saw
//! ([`Probe`]), reads the chosen file and hands over what came of it
//! ([`ConfigSource`]), and passes the variables that are set
//! ([`Environment`]). [`find_config`], [`from_config`] and [`from_env`]
//! decide the rest, [`model`] states what they decide, and [`laws`] holds
//! what follows from that for every input.

pub mod config;
pub mod document;
pub mod environment;
pub mod error;
pub mod filters;
pub mod identity;
pub mod laws;
pub mod locator;
pub mod model;
pub mod name_map;
pub mod session;
pub mod views;

pub use config::{cloud_session, env_session, find_cloud, from_config, from_env, get_env};
pub use document::{Auth, Cloud, Clouds, ConfigSource};
pub use environment::Environment;
pub use error::{Error, ErrorKind};
pub use filters::{EndpointFilters, InterfaceType};
pub use identity::{IdOrName, Password, Scope};
pub use locator::{
    find_config, search_warnings, ConfigLocation, CurrentProbe, HomeProbe, Probe, SearchWarning,
};
pub use name_map::NameMap;
pub use session::Session;
