//! Resolution of credentials from the configuration file or the environment.

use vstd::prelude::*;
use vstd::string::*;
use crate::document::{Cloud, ConfigSource};
use crate::environment::{
    variable, Environment, OS_AUTH_URL, OS_CLOUD, OS_INTERFACE, OS_PASSWORD, OS_PROJECT_DOMAIN_ID,
    OS_PROJECT_DOMAIN_NAME, OS_PROJECT_ID, OS_PROJECT_NAME, OS_USERNAME, OS_USER_DOMAIN_NAME,
};
use crate::error::{Error, ErrorKind};
use crate::filters::{EndpointFilters, InterfaceType};
use crate::identity::{IdOrName, Password, Scope, DEFAULT_DOMAIN};
use crate::model;
use crate::model::MISSING_ENV_VARS;
use crate::session::Session;
use crate::views::{option_view, result_view};

verus! {

/// The domain named, or the default one.
fn domain_or_default(domain: &Option<String>) -> (name: String)
    ensures
        name@ == model::or_default_domain(option_view(*domain)),
{
    match domain {
        Some(name) => name.clone(),
        None => DEFAULT_DOMAIN.to_owned(),
    }
}

/// Builds the session for a cloud entry on the identity constructed for it.
///
/// A construction failure is handed back unchanged. Otherwise the entry's
/// project, if it has one, becomes the identity's scope, and its region, if
/// it has one, the region of the identity's endpoint filters.
pub fn cloud_session(identity: Result<Password, Error>, cloud: &Cloud) -> (session: Result<
    Session,
    Error,
>)
    ensures
        result_view(session) == model::cloud_session(result_view(identity), cloud@),
{
    match identity {
        Ok(identity) => {
            let mut identity = identity;
            match &cloud.auth.project_name {
                Some(project) => {
                    let domain = domain_or_default(&cloud.auth.project_domain_name);
                    identity.set_scope(
                        Scope::Project {
                            project: IdOrName::Name(project.clone()),
                            domain: Some(IdOrName::Name(domain)),
                        },
                    );
                },
                None => {},
            }
            match &cloud.region_name {
                Some(region) => {
                    identity.endpoint_filters_mut().region = Some(region.clone());
                },
                None => {},
            }
            Ok(Session::new(identity))
        },
        Err(error) => Err(error),
    }
}

/// Looks up the entry of the cloud named `cloud_name` in the configuration file.
///
/// `source` is what came of locating and reading that file. The call fails
/// with `InvalidConfig` where no file was found, where it could not be read
/// or understood, and where it has no entry of that name.
pub fn find_cloud<'a>(cloud_name: &str, source: &'a ConfigSource) -> (found: Result<&'a Cloud, Error>)
    ensures
        result_view(found) == model::find_cloud(cloud_name@, source@),
{
    match source {
        ConfigSource::NotFound => Err(
            Error::new(
                ErrorKind::InvalidConfig,
                "clouds.yaml was not found in any location".to_owned(),
            ),
        ),
        ConfigSource::Unreadable(reason) => Err(
            Error::new(
                ErrorKind::InvalidConfig,
                String::from_str("Cannot read config.yaml: ").concat(reason.as_str()),
            ),
        ),
        ConfigSource::Unparseable(reason) => Err(
            Error::new(
                ErrorKind::InvalidConfig,
                String::from_str("Cannot parse clouds.yaml: ").concat(reason.as_str()),
            ),
        ),
        ConfigSource::Parsed(clouds) => match clouds.get(cloud_name) {
            Some(cloud) => Ok(cloud),
            None => Err(
                Error::new(
                    ErrorKind::InvalidConfig,
                    String::from_str("No such cloud: ").concat(cloud_name),
                ),
            ),
        },
    }
}

/// Creates a session for the cloud named `cloud_name` in the configuration file.
///
/// `source` is what came of locating and reading that file. The call fails
/// as [`find_cloud`] does; where the cloud has an entry, the session is
/// [`cloud_session`] for it, on a password identity with the entry's URL,
/// user name and password, in the user domain it names or the default one.
pub fn from_config(cloud_name: &str, source: &ConfigSource) -> (session: Result<Session, Error>)
    ensures
        result_view(session) == model::resolve_cloud(cloud_name@, source@),
{
    let cloud = match find_cloud(cloud_name, source) {
        Ok(cloud) => cloud,
        Err(error) => { return Err(error); },
    };
    let identity = Password::new(
        cloud.auth.auth_url.as_str(),
        cloud.auth.username.clone(),
        cloud.auth.password.clone(),
        domain_or_default(&cloud.auth.user_domain_name),
    );
    cloud_session(identity, cloud)
}

/// The value of a required variable, or the failure for an unset one.
pub fn get_env(env: &Environment, name: &str) -> (value: Result<String, Error>)
    ensures
        match value {
            Ok(text) => variable(env@, name@) == Some(text@),
            Err(error) => variable(env@, name@) is None && error@ == model::missing_variables(),
        },
{
    match env.get(name) {
        Some(text) => Ok(text.clone()),
        None => Err(Error::new(ErrorKind::InvalidInput, MISSING_ENV_VARS.to_owned())),
    }
}

/// What a pair of variables identifies: by identifier where the first is
/// set, else by name where the second is set.
fn id_or_name(env: &Environment, id_variable: &str, name_variable: &str) -> (found: Option<IdOrName>)
    ensures
        option_view(found) == model::id_or_name(env@, id_variable@, name_variable@),
{
    match env.get(id_variable) {
        Some(id) => Some(IdOrName::Id(id.clone())),
        None => match env.get(name_variable) {
            Some(name) => Some(IdOrName::Name(name.clone())),
            None => None,
        },
    }
}

/// Constructs the identity that the environment asks for.
fn env_identity(env: &Environment) -> (identity: Result<Password, Error>)
    ensures
        result_view(identity) == model::env_identity(env@),
{
    let auth_url = match get_env(env, OS_AUTH_URL) {
        Ok(text) => text,
        Err(error) => { return Err(error); },
    };
    let user_name = match get_env(env, OS_USERNAME) {
        Ok(text) => text,
        Err(error) => { return Err(error); },
    };
    let password = match get_env(env, OS_PASSWORD) {
        Ok(text) => text,
        Err(error) => { return Err(error); },
    };
    let user_domain = match env.get(OS_USER_DOMAIN_NAME) {
        Some(name) => name.clone(),
        None => DEFAULT_DOMAIN.to_owned(),
    };
    Password::new(auth_url.as_str(), user_name, password, user_domain)
}

/// Builds the session for the environment on the identity constructed for it.
///
/// A construction failure is handed back unchanged. Otherwise the project
/// is read, by identifier rather than by name where both are given, and the
/// call fails with `InvalidInput` where neither is; the project's domain is
/// read in the same way and may be missing. The session's endpoint filters
/// are replaced by fresh ones that hold the interface type of
/// `OS_INTERFACE`, where that is set; a word that names none fails the call.
pub fn env_session(identity: Result<Password, Error>, env: &Environment) -> (session: Result<
    Session,
    Error,
>)
    ensures
        result_view(session) == model::env_session(result_view(identity), env@),
{
    let identity = match identity {
        Ok(identity) => identity,
        Err(error) => { return Err(error); },
    };
    let project = match id_or_name(env, OS_PROJECT_ID, OS_PROJECT_NAME) {
        Some(project) => project,
        None => {
            return Err(Error::new(ErrorKind::InvalidInput, MISSING_ENV_VARS.to_owned()));
        },
    };
    let project_domain = id_or_name(env, OS_PROJECT_DOMAIN_ID, OS_PROJECT_DOMAIN_NAME);
    let mut session = Session::new(identity.with_project_scope(project, project_domain));
    let mut filters = EndpointFilters::default();
    match env.get(OS_INTERFACE) {
        Some(word) => match InterfaceType::from_str(word.as_str()) {
            Ok(interface) => {
                filters.set_interfaces(interface);
            },
            Err(error) => { return Err(error); },
        },
        None => {},
    }
    *session.endpoint_filters_mut() = filters;
    Ok(session)
}

/// Creates a session from environment variables.
///
/// Where `OS_CLOUD` is set, this is [`from_config`] for the cloud it names,
/// and no other variable is looked at. Otherwise the configuration file is
/// not looked at: `OS_AUTH_URL`, `OS_USERNAME` and `OS_PASSWORD` are
/// required, and the call fails with `InvalidInput` where one is unset.
pub fn from_env(env: &Environment, source: &ConfigSource) -> (session: Result<Session, Error>)
    ensures
        result_view(session) == model::resolve_env(env@, source@),
{
    match env.get(OS_CLOUD) {
        Some(cloud_name) => from_config(cloud_name.as_str(), source),
        None => env_session(env_identity(env), env),
    }
}

} // verus!
