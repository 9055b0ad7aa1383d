//! The environment variables that credential resolution consults.

use vstd::prelude::*;
use crate::name_map::NameMap;

verus! {

/// Names a cloud of the configuration file; when set, nothing else is read
/// from the environment.
pub const OS_CLOUD: &'static str = "OS_CLOUD";

/// Where the identity service is reached. Required.
pub const OS_AUTH_URL: &'static str = "OS_AUTH_URL";

/// The user name. Required.
pub const OS_USERNAME: &'static str = "OS_USERNAME";

/// The password. Required.
pub const OS_PASSWORD: &'static str = "OS_PASSWORD";

/// The name of the user's domain; the default domain where unset.
pub const OS_USER_DOMAIN_NAME: &'static str = "OS_USER_DOMAIN_NAME";

/// The identifier of the project. It or `OS_PROJECT_NAME` is required.
pub const OS_PROJECT_ID: &'static str = "OS_PROJECT_ID";

/// The name of the project, used where `OS_PROJECT_ID` is unset.
pub const OS_PROJECT_NAME: &'static str = "OS_PROJECT_NAME";

/// The identifier of the project's domain.
pub const OS_PROJECT_DOMAIN_ID: &'static str = "OS_PROJECT_DOMAIN_ID";

/// The name of the project's domain, used where `OS_PROJECT_DOMAIN_ID` is unset.
pub const OS_PROJECT_DOMAIN_NAME: &'static str = "OS_PROJECT_DOMAIN_NAME";

/// The interface type to which endpoints are restricted.
pub const OS_INTERFACE: &'static str = "OS_INTERFACE";

/// The variables that are set, by name. A variable that is not bound here
/// counts as unset.
pub type Environment = NameMap<String>;

/// The names of the variables that resolution may consult.
pub open spec fn consulted() -> Seq<&'static str> {
    seq![
        OS_CLOUD,
        OS_AUTH_URL,
        OS_USERNAME,
        OS_PASSWORD,
        OS_USER_DOMAIN_NAME,
        OS_PROJECT_ID,
        OS_PROJECT_NAME,
        OS_PROJECT_DOMAIN_ID,
        OS_PROJECT_DOMAIN_NAME,
        OS_INTERFACE,
    ]
}

/// The names of the variables that resolution may consult: an environment
/// need hold no others.
pub fn variables() -> (names: Vec<&'static str>)
    ensures
        names@ == consulted(),
{
    vec![
        OS_CLOUD,
        OS_AUTH_URL,
        OS_USERNAME,
        OS_PASSWORD,
        OS_USER_DOMAIN_NAME,
        OS_PROJECT_ID,
        OS_PROJECT_NAME,
        OS_PROJECT_DOMAIN_ID,
        OS_PROJECT_DOMAIN_NAME,
        OS_INTERFACE,
    ]
}

/// The value of a variable, if it is set.
pub open spec fn variable(env: Map<Seq<char>, Seq<char>>, name: Seq<char>) -> Option<Seq<char>> {
    if env.contains_key(name) {
        Some(env[name])
    } else {
        None
    }
}

} // verus!
