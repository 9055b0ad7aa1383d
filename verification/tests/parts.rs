use os_cloud_config::identity::DEFAULT_DOMAIN;
use os_cloud_config::{
    EndpointFilters, Error, ErrorKind, IdOrName, InterfaceType, NameMap, Password, Scope, Session,
};

fn identity() -> Password {
    Password::new(
        "https://keystone.example.org/v3",
        "nina".to_string(),
        "s3cret".to_string(),
        "people".to_string(),
    )
    .unwrap()
}

#[test]
fn interface_words_are_read() {
    assert_eq!(InterfaceType::from_str("public"), Ok(InterfaceType::Public));
    assert_eq!(InterfaceType::from_str("internal"), Ok(InterfaceType::Internal));
    assert_eq!(InterfaceType::from_str("admin"), Ok(InterfaceType::Admin));
}

#[test]
fn other_words_name_no_interface() {
    for word in ["bogus", "", "Public", "PUBLIC", " public", "public ", "publi", "adminn"] {
        let error = InterfaceType::from_str(word).unwrap_err();
        assert_eq!(error.kind, ErrorKind::InvalidInput);
        assert_eq!(error.message, format!("Unknown interface type: {}", word));
    }
}

#[test]
fn default_domain_is_default() {
    assert_eq!(DEFAULT_DOMAIN, "Default");
}

#[test]
fn new_identity_is_unscoped_and_unfiltered() {
    let identity = identity();
    assert_eq!(identity.auth_url, "https://keystone.example.org/v3");
    assert_eq!(identity.user_name, "nina");
    assert_eq!(identity.password, "s3cret");
    assert_eq!(identity.user_domain, "people");
    assert_eq!(identity.scope, None);
    assert_eq!(identity.filters, EndpointFilters { region: None, interfaces: None });
}

#[test]
fn identity_keeps_the_url_as_written() {
    let made = Password::new("not a url", "n".to_string(), "p".to_string(), "d".to_string());
    assert_eq!(made.unwrap().auth_url, "not a url");
}

#[test]
fn set_scope_replaces_the_scope() {
    let mut identity = identity();
    identity.set_scope(Scope::Project {
        project: IdOrName::Name("first".to_string()),
        domain: None,
    });
    let second = Scope::Project {
        project: IdOrName::Id("p-2".to_string()),
        domain: Some(IdOrName::Name("projects".to_string())),
    };
    identity.set_scope(second.clone());
    assert_eq!(identity.scope, Some(second));
    assert_eq!(identity.user_name, "nina");
}

#[test]
fn with_project_scope_scopes_to_the_project() {
    let scoped = identity()
        .with_project_scope(IdOrName::Id("p-1".to_string()), Some(IdOrName::Id("d-1".to_string())));
    assert_eq!(
        scoped.scope,
        Some(Scope::Project {
            project: IdOrName::Id("p-1".to_string()),
            domain: Some(IdOrName::Id("d-1".to_string())),
        })
    );
    assert_eq!(scoped.auth_url, "https://keystone.example.org/v3");
    assert_eq!(scoped.filters, EndpointFilters::default());
}

#[test]
fn default_filters_restrict_nothing() {
    assert_eq!(EndpointFilters::default(), EndpointFilters { region: None, interfaces: None });
}

#[test]
fn setting_one_filter_keeps_the_other() {
    let mut filters = EndpointFilters::default();
    filters.region = Some("RegionOne".to_string());
    filters.set_interfaces(InterfaceType::Internal);
    assert_eq!(
        filters,
        EndpointFilters {
            region: Some("RegionOne".to_string()),
            interfaces: Some(InterfaceType::Internal),
        }
    );
    filters.set_interfaces(InterfaceType::Admin);
    assert_eq!(filters.interfaces, Some(InterfaceType::Admin));
    assert_eq!(filters.region, Some("RegionOne".to_string()));
    assert_eq!(filters.duplicate(), filters);
}

#[test]
fn session_starts_with_the_filters_of_its_identity() {
    let mut identity = identity();
    identity.endpoint_filters_mut().region = Some("RegionOne".to_string());
    identity.endpoint_filters_mut().set_interfaces(InterfaceType::Admin);
    let session = Session::new(identity.clone());
    assert_eq!(session.identity, identity);
    assert_eq!(
        session.endpoint_filters,
        EndpointFilters { region: Some("RegionOne".to_string()), interfaces: Some(InterfaceType::Admin) }
    );
}

#[test]
fn session_filters_change_apart_from_the_identity() {
    let mut session = Session::new(identity());
    *session.endpoint_filters_mut() =
        EndpointFilters { region: None, interfaces: Some(InterfaceType::Public) };
    assert_eq!(session.endpoint_filters.interfaces, Some(InterfaceType::Public));
    assert_eq!(session.identity.filters, EndpointFilters::default());
}

#[test]
fn error_holds_kind_and_message() {
    let error = Error::new(ErrorKind::InvalidConfig, "No such cloud: x".to_string());
    assert_eq!(error.kind, ErrorKind::InvalidConfig);
    assert_eq!(error.message, "No such cloud: x");
    assert_ne!(error, Error::new(ErrorKind::InvalidInput, "No such cloud: x".to_string()));
}

#[test]
fn empty_map_binds_nothing() {
    let map: NameMap<String> = NameMap::new();
    assert_eq!(map.get("a"), None);
    assert_eq!(map.get(""), None);
}

#[test]
fn map_returns_what_was_inserted() {
    let mut map: NameMap<String> = NameMap::new();
    map.insert("a".to_string(), "1".to_string());
    map.insert("b".to_string(), "2".to_string());
    map.insert("".to_string(), "3".to_string());
    assert_eq!(map.get("a"), Some(&"1".to_string()));
    assert_eq!(map.get("b"), Some(&"2".to_string()));
    assert_eq!(map.get(""), Some(&"3".to_string()));
    assert_eq!(map.get("c"), None);
    assert_eq!(map.get("A"), None);
}

#[test]
fn map_insert_replaces_a_bound_name() {
    let mut map: NameMap<String> = NameMap::new();
    map.insert("a".to_string(), "1".to_string());
    map.insert("b".to_string(), "2".to_string());
    map.insert("a".to_string(), "3".to_string());
    assert_eq!(map.get("a"), Some(&"3".to_string()));
    assert_eq!(map.get("b"), Some(&"2".to_string()));
    map.insert("b".to_string(), "4".to_string());
    map.insert("a".to_string(), "5".to_string());
    assert_eq!(map.get("a"), Some(&"5".to_string()));
    assert_eq!(map.get("b"), Some(&"4".to_string()));
}
