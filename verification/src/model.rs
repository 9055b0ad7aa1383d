//! What credential resolution computes, stated over the mathematical content
//! of its inputs.

use vstd::prelude::*;
use crate::document::{CloudView, ConfigSourceView};
use crate::environment::{
    variable, OS_AUTH_URL, OS_CLOUD, OS_INTERFACE, OS_PASSWORD, OS_PROJECT_DOMAIN_ID,
    OS_PROJECT_DOMAIN_NAME, OS_PROJECT_ID, OS_PROJECT_NAME, OS_USERNAME, OS_USER_DOMAIN_NAME,
};
use crate::error::{ErrorKind, ErrorView};
use crate::filters::{parse_interface, EndpointFiltersView, InterfaceType};
use crate::identity::{IdOrNameView, PasswordView, ScopeView, DEFAULT_DOMAIN};
use crate::session::SessionView;

verus! {

/// The message of the failure reported when a required variable is unset.
pub const MISSING_ENV_VARS: &'static str = "Not all required environment variables were provided";

/// The failure reported when no configuration file is found.
pub open spec fn config_not_found() -> ErrorView {
    ErrorView {
        kind: ErrorKind::InvalidConfig,
        message: "clouds.yaml was not found in any location"@,
    }
}

/// The failure reported when the configuration file cannot be read.
pub open spec fn config_unreadable(reason: Seq<char>) -> ErrorView {
    ErrorView { kind: ErrorKind::InvalidConfig, message: "Cannot read config.yaml: "@ + reason }
}

/// The failure reported when the configuration file does not have the expected shape.
pub open spec fn config_unparseable(reason: Seq<char>) -> ErrorView {
    ErrorView { kind: ErrorKind::InvalidConfig, message: "Cannot parse clouds.yaml: "@ + reason }
}

/// The failure reported when the configuration file has no entry for a cloud.
pub open spec fn no_such_cloud(name: Seq<char>) -> ErrorView {
    ErrorView { kind: ErrorKind::InvalidConfig, message: "No such cloud: "@ + name }
}

/// The failure reported when a required variable is unset.
pub open spec fn missing_variables() -> ErrorView {
    ErrorView { kind: ErrorKind::InvalidInput, message: MISSING_ENV_VARS@ }
}

/// A domain name, or the default where none is given.
pub open spec fn or_default_domain(domain: Option<Seq<char>>) -> Seq<char> {
    match domain {
        Some(name) => name,
        None => DEFAULT_DOMAIN@,
    }
}

/// The identity that a cloud entry asks for.
pub open spec fn cloud_identity(cloud: CloudView) -> Result<PasswordView, ErrorView> {
    PasswordView::new(
        cloud.auth.auth_url,
        cloud.auth.username,
        cloud.auth.password,
        or_default_domain(cloud.auth.user_domain_name),
    )
}

/// The scope that a cloud entry asks for: its project, by name, in the
/// project domain it names or else the default one; none without a project.
pub open spec fn cloud_scope(cloud: CloudView) -> Option<ScopeView> {
    match cloud.auth.project_name {
        Some(project) => Some(
            ScopeView::Project {
                project: IdOrNameView::Name(project),
                domain: Some(IdOrNameView::Name(or_default_domain(cloud.auth.project_domain_name))),
            },
        ),
        None => None,
    }
}

/// An identity after a cloud entry's scope and region are applied to it.
/// What the entry leaves out stays as the identity has it.
pub open spec fn cloud_applied(identity: PasswordView, cloud: CloudView) -> PasswordView {
    let scoped = match cloud_scope(cloud) {
        Some(scope) => identity.with_scope(scope),
        None => identity,
    };
    match cloud.region_name {
        Some(region) => scoped.with_filters(scoped.filters.with_region(Some(region))),
        None => scoped,
    }
}

/// The session for a cloud entry, given what constructing its identity
/// came to: a failure is passed on as it is.
pub open spec fn cloud_session(identity: Result<PasswordView, ErrorView>, cloud: CloudView) -> Result<
    SessionView,
    ErrorView,
> {
    match identity {
        Ok(identity) => Ok(SessionView::new(cloud_applied(identity, cloud))),
        Err(error) => Err(error),
    }
}

/// The entry of a cloud in the configuration file, or the failure that
/// stands in the way of it: no file, a file that could not be read or
/// understood, or a file without that entry.
pub open spec fn find_cloud(name: Seq<char>, source: ConfigSourceView) -> Result<
    CloudView,
    ErrorView,
> {
    match source {
        ConfigSourceView::NotFound => Err(config_not_found()),
        ConfigSourceView::Unreadable(reason) => Err(config_unreadable(reason)),
        ConfigSourceView::Unparseable(reason) => Err(config_unparseable(reason)),
        ConfigSourceView::Parsed(clouds) => if clouds.contains_key(name) {
            Ok(clouds[name])
        } else {
            Err(no_such_cloud(name))
        },
    }
}

/// The outcome of resolving a cloud by name: the session for its entry, on
/// the identity that the entry asks for.
pub open spec fn resolve_cloud(name: Seq<char>, source: ConfigSourceView) -> Result<
    SessionView,
    ErrorView,
> {
    match find_cloud(name, source) {
        Ok(cloud) => cloud_session(cloud_identity(cloud), cloud),
        Err(error) => Err(error),
    }
}

/// What a pair of variables identifies: the identifier where the first is
/// set, else the name where the second is set, else nothing.
pub open spec fn id_or_name(
    env: Map<Seq<char>, Seq<char>>,
    id_variable: Seq<char>,
    name_variable: Seq<char>,
) -> Option<IdOrNameView> {
    match variable(env, id_variable) {
        Some(id) => Some(IdOrNameView::Id(id)),
        None => match variable(env, name_variable) {
            Some(name) => Some(IdOrNameView::Name(name)),
            None => None,
        },
    }
}

/// The identity that the environment asks for. The URL, the user name and
/// the password are required.
pub open spec fn env_identity(env: Map<Seq<char>, Seq<char>>) -> Result<PasswordView, ErrorView> {
    if env.contains_key(OS_AUTH_URL@) && env.contains_key(OS_USERNAME@) && env.contains_key(
        OS_PASSWORD@,
    ) {
        PasswordView::new(
            env[OS_AUTH_URL@],
            env[OS_USERNAME@],
            env[OS_PASSWORD@],
            or_default_domain(variable(env, OS_USER_DOMAIN_NAME@)),
        )
    } else {
        Err(missing_variables())
    }
}

/// The interface type that the environment asks for, if it asks for one.
pub open spec fn env_interface(env: Map<Seq<char>, Seq<char>>) -> Result<
    Option<InterfaceType>,
    ErrorView,
> {
    match variable(env, OS_INTERFACE@) {
        Some(word) => match parse_interface(word) {
            Ok(interface) => Ok(Some(interface)),
            Err(error) => Err(error),
        },
        None => Ok(None),
    }
}

/// The session for the environment, given what constructing its identity
/// came to: a failure is passed on as it is. A project is required; its
/// domain is not. The session's endpoint filters hold the interface type
/// asked for and nothing else.
pub open spec fn env_session(
    identity: Result<PasswordView, ErrorView>,
    env: Map<Seq<char>, Seq<char>>,
) -> Result<SessionView, ErrorView> {
    match identity {
        Ok(identity) => match id_or_name(env, OS_PROJECT_ID@, OS_PROJECT_NAME@) {
            Some(project) => match env_interface(env) {
                Ok(interfaces) => Ok(
                    SessionView::new(
                        identity.with_project_scope(
                            project,
                            id_or_name(env, OS_PROJECT_DOMAIN_ID@, OS_PROJECT_DOMAIN_NAME@),
                        ),
                    ).with_filters(EndpointFiltersView::unset().with_interfaces(interfaces)),
                ),
                Err(error) => Err(error),
            },
            None => Err(missing_variables()),
        },
        Err(error) => Err(error),
    }
}

/// The outcome of resolving from the environment: where `OS_CLOUD` is set,
/// that of resolving the cloud it names; else what the other variables give.
pub open spec fn resolve_env(env: Map<Seq<char>, Seq<char>>, source: ConfigSourceView) -> Result<
    SessionView,
    ErrorView,
> {
    match variable(env, OS_CLOUD@) {
        Some(name) => resolve_cloud(name, source),
        None => env_session(env_identity(env), env),
    }
}

} // verus!
