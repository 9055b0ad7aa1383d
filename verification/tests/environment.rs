use os_cloud_config::environment::variables;
use os_cloud_config::{
    env_session, from_env, get_env, Auth, Cloud, Clouds, ConfigSource, EndpointFilters,
    Environment, Error, ErrorKind, IdOrName, InterfaceType, NameMap, Password, Scope,
};

const MISSING: &str = "Not all required environment variables were provided";

fn env_of(pairs: &[(&str, &str)]) -> Environment {
    let mut env: Environment = NameMap::new();
    for (name, value) in pairs {
        env.insert(name.to_string(), value.to_string());
    }
    env
}

fn complete() -> Vec<(&'static str, &'static str)> {
    vec![
        ("OS_AUTH_URL", "https://keystone.example.org/v3"),
        ("OS_USERNAME", "nina"),
        ("OS_PASSWORD", "s3cret"),
        ("OS_PROJECT_NAME", "pname1"),
    ]
}

fn without(pairs: Vec<(&'static str, &'static str)>, name: &str) -> Vec<(&'static str, &'static str)> {
    pairs.into_iter().filter(|(n, _)| *n != name).collect()
}

fn beta_source() -> ConfigSource {
    let mut clouds: Clouds = NameMap::new();
    clouds.insert(
        "beta".to_string(),
        Cloud {
            auth: Auth {
                auth_url: "https://beta.example.org".to_string(),
                password: "pw2".to_string(),
                project_name: None,
                project_domain_name: None,
                username: "bob".to_string(),
                user_domain_name: None,
            },
            region_name: Some("RegionTwo".to_string()),
        },
    );
    ConfigSource::Parsed(clouds)
}

fn project_of(scope: &Option<Scope>) -> (IdOrName, Option<IdOrName>) {
    match scope {
        Some(Scope::Project { project, domain }) => (project.clone(), domain.clone()),
        None => panic!("the identity is not scoped"),
    }
}

#[test]
fn cloud_override_delegates_to_the_configuration_file() {
    let env = env_of(&[("OS_CLOUD", "beta"), ("OS_AUTH_URL", "https://ignored.example.org")]);
    let session = from_env(&env, &beta_source()).unwrap();
    assert_eq!(session.identity.auth_url, "https://beta.example.org");
    assert_eq!(session.identity.user_name, "bob");
    assert_eq!(session.identity.password, "pw2");
    assert_eq!(session.identity.scope, None);
    assert_eq!(session.endpoint_filters.region, Some("RegionTwo".to_string()));
}

#[test]
fn cloud_override_ignores_a_complete_environment() {
    let mut pairs = complete();
    pairs.push(("OS_CLOUD", "beta"));
    pairs.push(("OS_INTERFACE", "bogus"));
    let session = from_env(&env_of(&pairs), &beta_source()).unwrap();
    assert_eq!(session.identity.user_name, "bob");
    assert_eq!(session.endpoint_filters.interfaces, None);
}

#[test]
fn cloud_override_reports_what_the_configuration_file_lacks() {
    let env = env_of(&[("OS_CLOUD", "gamma")]);
    let error = from_env(&env, &beta_source()).unwrap_err();
    assert_eq!(error, Error::new(ErrorKind::InvalidConfig, "No such cloud: gamma".to_string()));
    let error = from_env(&env, &ConfigSource::NotFound).unwrap_err();
    assert_eq!(error.kind, ErrorKind::InvalidConfig);
    assert_eq!(error.message, "clouds.yaml was not found in any location");
}

#[test]
fn without_cloud_override_the_configuration_file_is_not_consulted() {
    let env = env_of(&complete());
    let from_none = from_env(&env, &ConfigSource::NotFound);
    let from_some = from_env(&env, &beta_source());
    assert!(from_none.is_ok());
    assert_eq!(from_none, from_some);
}

#[test]
fn environment_gives_identity_and_project_scope() {
    let session = from_env(&env_of(&complete()), &ConfigSource::NotFound).unwrap();
    assert_eq!(session.identity.auth_url, "https://keystone.example.org/v3");
    assert_eq!(session.identity.user_name, "nina");
    assert_eq!(session.identity.password, "s3cret");
    assert_eq!(session.identity.user_domain, "Default");
    assert_eq!(
        project_of(&session.identity.scope),
        (IdOrName::Name("pname1".to_string()), None)
    );
    assert_eq!(session.endpoint_filters, EndpointFilters { region: None, interfaces: None });
}

#[test]
fn user_domain_is_read_from_the_environment() {
    let mut pairs = complete();
    pairs.push(("OS_USER_DOMAIN_NAME", "people"));
    let session = from_env(&env_of(&pairs), &ConfigSource::NotFound).unwrap();
    assert_eq!(session.identity.user_domain, "people");
}

#[test]
fn project_id_is_preferred_over_project_name() {
    let mut pairs = complete();
    pairs.push(("OS_PROJECT_ID", "pid1"));
    let session = from_env(&env_of(&pairs), &ConfigSource::NotFound).unwrap();
    assert_eq!(project_of(&session.identity.scope).0, IdOrName::Id("pid1".to_string()));
}

#[test]
fn project_id_alone_is_enough() {
    let mut pairs = without(complete(), "OS_PROJECT_NAME");
    pairs.push(("OS_PROJECT_ID", "pid1"));
    let session = from_env(&env_of(&pairs), &ConfigSource::NotFound).unwrap();
    assert_eq!(
        project_of(&session.identity.scope),
        (IdOrName::Id("pid1".to_string()), None)
    );
}

#[test]
fn missing_project_is_invalid_input() {
    let pairs = without(complete(), "OS_PROJECT_NAME");
    let error = from_env(&env_of(&pairs), &ConfigSource::NotFound).unwrap_err();
    assert_eq!(error.kind, ErrorKind::InvalidInput);
    assert_eq!(error.message, MISSING);
}

#[test]
fn project_domain_alone_does_not_replace_the_project() {
    let mut pairs = without(complete(), "OS_PROJECT_NAME");
    pairs.push(("OS_PROJECT_DOMAIN_ID", "did1"));
    pairs.push(("OS_PROJECT_DOMAIN_NAME", "dname1"));
    let error = from_env(&env_of(&pairs), &ConfigSource::NotFound).unwrap_err();
    assert_eq!(error.kind, ErrorKind::InvalidInput);
}

#[test]
fn project_domain_id_is_preferred_over_its_name() {
    let mut pairs = complete();
    pairs.push(("OS_PROJECT_DOMAIN_ID", "did1"));
    pairs.push(("OS_PROJECT_DOMAIN_NAME", "dname1"));
    let session = from_env(&env_of(&pairs), &ConfigSource::NotFound).unwrap();
    assert_eq!(
        project_of(&session.identity.scope).1,
        Some(IdOrName::Id("did1".to_string()))
    );
}

#[test]
fn project_domain_name_is_used_without_an_id() {
    let mut pairs = complete();
    pairs.push(("OS_PROJECT_DOMAIN_NAME", "dname1"));
    let session = from_env(&env_of(&pairs), &ConfigSource::NotFound).unwrap();
    assert_eq!(
        project_of(&session.identity.scope).1,
        Some(IdOrName::Name("dname1".to_string()))
    );
}

#[test]
fn missing_auth_url_is_invalid_input() {
    let pairs = without(complete(), "OS_AUTH_URL");
    let error = from_env(&env_of(&pairs), &ConfigSource::NotFound).unwrap_err();
    assert_eq!(error, Error::new(ErrorKind::InvalidInput, MISSING.to_string()));
}

#[test]
fn missing_username_is_invalid_input() {
    let pairs = without(complete(), "OS_USERNAME");
    let error = from_env(&env_of(&pairs), &ConfigSource::NotFound).unwrap_err();
    assert_eq!(error, Error::new(ErrorKind::InvalidInput, MISSING.to_string()));
}

#[test]
fn missing_password_is_invalid_input() {
    let pairs = without(complete(), "OS_PASSWORD");
    let error = from_env(&env_of(&pairs), &ConfigSource::NotFound).unwrap_err();
    assert_eq!(error, Error::new(ErrorKind::InvalidInput, MISSING.to_string()));
}

#[test]
fn empty_environment_is_invalid_input() {
    let error = from_env(&env_of(&[]), &beta_source()).unwrap_err();
    assert_eq!(error, Error::new(ErrorKind::InvalidInput, MISSING.to_string()));
}

#[test]
fn a_variable_set_to_nothing_is_set() {
    let mut pairs = without(complete(), "OS_PASSWORD");
    pairs.push(("OS_PASSWORD", ""));
    let session = from_env(&env_of(&pairs), &ConfigSource::NotFound).unwrap();
    assert_eq!(session.identity.password, "");
}

#[test]
fn public_interface_is_set_on_the_session() {
    let mut pairs = complete();
    pairs.push(("OS_INTERFACE", "public"));
    let session = from_env(&env_of(&pairs), &ConfigSource::NotFound).unwrap();
    assert_eq!(
        session.endpoint_filters,
        EndpointFilters { region: None, interfaces: Some(InterfaceType::Public) }
    );
    assert_eq!(session.identity.filters, EndpointFilters { region: None, interfaces: None });
}

#[test]
fn internal_and_admin_interfaces_are_recognised() {
    let mut pairs = complete();
    pairs.push(("OS_INTERFACE", "internal"));
    let session = from_env(&env_of(&pairs), &ConfigSource::NotFound).unwrap();
    assert_eq!(session.endpoint_filters.interfaces, Some(InterfaceType::Internal));
    let mut pairs = complete();
    pairs.push(("OS_INTERFACE", "admin"));
    let session = from_env(&env_of(&pairs), &ConfigSource::NotFound).unwrap();
    assert_eq!(session.endpoint_filters.interfaces, Some(InterfaceType::Admin));
}

#[test]
fn unknown_interface_fails_resolution() {
    let mut pairs = complete();
    pairs.push(("OS_INTERFACE", "bogus"));
    let error = from_env(&env_of(&pairs), &ConfigSource::NotFound).unwrap_err();
    assert_eq!(error.kind, ErrorKind::InvalidInput);
    assert_eq!(error.message, "Unknown interface type: bogus");
}

#[test]
fn missing_project_is_reported_before_an_unknown_interface() {
    let mut pairs = without(complete(), "OS_PROJECT_NAME");
    pairs.push(("OS_INTERFACE", "bogus"));
    let error = from_env(&env_of(&pairs), &ConfigSource::NotFound).unwrap_err();
    assert_eq!(error.message, MISSING);
}

#[test]
fn resolving_the_environment_twice_gives_equal_sessions() {
    let mut pairs = complete();
    pairs.push(("OS_PROJECT_ID", "pid1"));
    pairs.push(("OS_INTERFACE", "admin"));
    let env = env_of(&pairs);
    let first = from_env(&env, &ConfigSource::NotFound);
    let second = from_env(&env, &ConfigSource::NotFound);
    assert!(first.is_ok());
    assert_eq!(first, second);
}

#[test]
fn env_session_passes_a_construction_failure_on() {
    let failure = Error::new(ErrorKind::InvalidConfig, "Invalid auth_url".to_string());
    let outcome = env_session(Err(failure.clone()), &env_of(&complete()));
    assert_eq!(outcome, Err(failure));
}

#[test]
fn env_session_reports_a_construction_failure_before_a_missing_project() {
    let failure = Error::new(ErrorKind::InvalidConfig, "Invalid auth_url".to_string());
    let pairs = without(complete(), "OS_PROJECT_NAME");
    let outcome = env_session(Err(failure.clone()), &env_of(&pairs));
    assert_eq!(outcome, Err(failure));
}

#[test]
fn env_session_replaces_the_session_filters() {
    let mut identity = Password::new(
        "https://keystone.example.org/v3",
        "nina".to_string(),
        "s3cret".to_string(),
        "Default".to_string(),
    )
    .unwrap();
    identity.endpoint_filters_mut().region = Some("RegionOne".to_string());
    let session = env_session(Ok(identity), &env_of(&complete())).unwrap();
    assert_eq!(session.endpoint_filters, EndpointFilters { region: None, interfaces: None });
    assert_eq!(session.identity.filters.region, Some("RegionOne".to_string()));
}

#[test]
fn get_env_returns_the_value_of_a_set_variable() {
    let env = env_of(&[("OS_USERNAME", "nina")]);
    assert_eq!(get_env(&env, "OS_USERNAME"), Ok("nina".to_string()));
}

#[test]
fn get_env_fails_for_an_unset_variable() {
    let env = env_of(&[("OS_USERNAME", "nina")]);
    assert_eq!(
        get_env(&env, "OS_PASSWORD"),
        Err(Error::new(ErrorKind::InvalidInput, MISSING.to_string()))
    );
    assert!(get_env(&env, "os_username").is_err());
}

#[test]
fn the_consulted_variables_are_listed() {
    assert_eq!(
        variables(),
        vec![
            "OS_CLOUD",
            "OS_AUTH_URL",
            "OS_USERNAME",
            "OS_PASSWORD",
            "OS_USER_DOMAIN_NAME",
            "OS_PROJECT_ID",
            "OS_PROJECT_NAME",
            "OS_PROJECT_DOMAIN_ID",
            "OS_PROJECT_DOMAIN_NAME",
            "OS_INTERFACE",
        ]
    );
}

#[test]
fn variables_that_are_not_listed_change_nothing() {
    let mut pairs = complete();
    pairs.push(("OS_INTERFACE", "internal"));
    let plain = from_env(&env_of(&pairs), &ConfigSource::NotFound);
    pairs.push(("OS_REGION_NAME", "RegionOne"));
    pairs.push(("OS_TENANT_NAME", "tenant"));
    pairs.push(("HOME", "/home/nina"));
    let noisy = from_env(&env_of(&pairs), &ConfigSource::NotFound);
    assert!(plain.is_ok());
    assert_eq!(plain, noisy);
}
