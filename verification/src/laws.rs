//! General facts about credential resolution, proved from its model.

use vstd::prelude::*;
use crate::document::{ConfigSource, ConfigSourceView, CloudView};
use crate::environment::{
    consulted, variable, OS_AUTH_URL, OS_CLOUD, OS_INTERFACE, OS_PASSWORD, OS_PROJECT_DOMAIN_ID,
    OS_PROJECT_DOMAIN_NAME, OS_PROJECT_ID, OS_PROJECT_NAME, OS_USERNAME, OS_USER_DOMAIN_NAME,
};
use crate::error::{Error, ErrorKind, ErrorView};
use crate::filters::{parse_interface, unknown_interface, EndpointFiltersView, InterfaceType};
use crate::identity::{IdOrNameView, PasswordView, ScopeView, DEFAULT_DOMAIN};
use crate::model::{env_interface, no_such_cloud, resolve_cloud, resolve_env};
use crate::session::{Session, SessionView};
use crate::views::result_view;

verus! {

/// A cloud entry that names no domain, no project and no region resolves to
/// an unscoped identity with the entry's URL, user name and password, in the
/// default user domain, and to a session that filters nothing.
pub proof fn lemma_plain_cloud(name: Seq<char>, clouds: Map<Seq<char>, CloudView>)
    requires
        clouds.contains_key(name),
        clouds[name].auth.user_domain_name is None,
        clouds[name].auth.project_name is None,
        clouds[name].region_name is None,
    ensures
        resolve_cloud(name, ConfigSourceView::Parsed(clouds)) == Ok::<SessionView, ErrorView>(
            SessionView {
                identity: PasswordView {
                    auth_url: clouds[name].auth.auth_url,
                    user_name: clouds[name].auth.username,
                    password: clouds[name].auth.password,
                    user_domain: DEFAULT_DOMAIN@,
                    scope: None,
                    filters: EndpointFiltersView::unset(),
                },
                endpoint_filters: EndpointFiltersView::unset(),
            },
        ),
{
}

/// A cloud entry with a project and no project domain resolves to an
/// identity scoped to that project, by name, in the default domain.
pub proof fn lemma_project_in_default_domain(
    name: Seq<char>,
    clouds: Map<Seq<char>, CloudView>,
    project: Seq<char>,
)
    requires
        clouds.contains_key(name),
        clouds[name].auth.project_name == Some(project),
        clouds[name].auth.project_domain_name is None,
    ensures
        resolve_cloud(name, ConfigSourceView::Parsed(clouds)) is Ok,
        resolve_cloud(name, ConfigSourceView::Parsed(clouds))->Ok_0.identity.scope == Some(
            ScopeView::Project {
                project: IdOrNameView::Name(project),
                domain: Some(IdOrNameView::Name(DEFAULT_DOMAIN@)),
            },
        ),
{
}

/// A cloud that the configuration file has no entry for fails to resolve
/// with `InvalidConfig`, whatever other entries the file has.
pub proof fn lemma_absent_cloud(name: Seq<char>, clouds: Map<Seq<char>, CloudView>)
    requires
        !clouds.contains_key(name),
    ensures
        resolve_cloud(name, ConfigSourceView::Parsed(clouds)) == Err::<SessionView, ErrorView>(
            no_such_cloud(name),
        ),
        no_such_cloud(name).kind == ErrorKind::InvalidConfig,
{
}

/// With `OS_CLOUD` set, resolution from the environment is resolution of the
/// cloud it names: two environments that agree on `OS_CLOUD` resolve alike,
/// however they differ elsewhere.
pub proof fn lemma_cloud_override(
    env: Map<Seq<char>, Seq<char>>,
    other: Map<Seq<char>, Seq<char>>,
    source: ConfigSourceView,
    name: Seq<char>,
)
    requires
        variable(env, OS_CLOUD@) == Some(name),
        variable(other, OS_CLOUD@) == Some(name),
    ensures
        resolve_env(env, source) == resolve_cloud(name, source),
        resolve_env(other, source) == resolve_env(env, source),
{
}

/// Without `OS_CLOUD`, with the required variables set and `OS_INTERFACE`
/// acceptable, a set `OS_PROJECT_ID` gives the scope's project, by
/// identifier, whether or not `OS_PROJECT_NAME` is set too.
pub proof fn lemma_project_id_preferred(env: Map<Seq<char>, Seq<char>>, source: ConfigSourceView)
    requires
        variable(env, OS_CLOUD@) is None,
        variable(env, OS_AUTH_URL@) is Some,
        variable(env, OS_USERNAME@) is Some,
        variable(env, OS_PASSWORD@) is Some,
        variable(env, OS_PROJECT_ID@) is Some,
        env_interface(env) is Ok,
    ensures
        resolve_env(env, source) matches Ok(session) && session.identity.scope matches Some(
            ScopeView::Project { project, .. },
        ) && project == IdOrNameView::Id(env[OS_PROJECT_ID@]),
{
}

/// Without `OS_CLOUD`, an environment that sets neither `OS_PROJECT_ID` nor
/// `OS_PROJECT_NAME` fails to resolve with `InvalidInput`.
pub proof fn lemma_project_required(env: Map<Seq<char>, Seq<char>>, source: ConfigSourceView)
    requires
        variable(env, OS_CLOUD@) is None,
        variable(env, OS_PROJECT_ID@) is None,
        variable(env, OS_PROJECT_NAME@) is None,
    ensures
        resolve_env(env, source) matches Err(error) && error.kind == ErrorKind::InvalidInput,
{
}

/// Without `OS_CLOUD`, with the required variables and a project set, an
/// `OS_INTERFACE` that names an interface type gives the session that
/// interface type, and no region.
pub proof fn lemma_interface_from_env(
    env: Map<Seq<char>, Seq<char>>,
    source: ConfigSourceView,
    word: Seq<char>,
    interface: InterfaceType,
)
    requires
        variable(env, OS_CLOUD@) is None,
        variable(env, OS_AUTH_URL@) is Some,
        variable(env, OS_USERNAME@) is Some,
        variable(env, OS_PASSWORD@) is Some,
        variable(env, OS_PROJECT_ID@) is Some || variable(env, OS_PROJECT_NAME@) is Some,
        variable(env, OS_INTERFACE@) == Some(word),
        parse_interface(word) == Ok::<InterfaceType, ErrorView>(interface),
    ensures
        resolve_env(env, source) matches Ok(session) && session.endpoint_filters
            == EndpointFiltersView::unset().with_interfaces(Some(interface)),
{
}

/// Each of the words `public`, `internal` and `admin` names its own
/// interface type, and no other word names any.
pub proof fn lemma_interface_words(word: Seq<char>)
    ensures
        word == "public"@ ==> parse_interface(word) == Ok::<InterfaceType, ErrorView>(
            InterfaceType::Public,
        ),
        word == "internal"@ ==> parse_interface(word) == Ok::<InterfaceType, ErrorView>(
            InterfaceType::Internal,
        ),
        word == "admin"@ ==> parse_interface(word) == Ok::<InterfaceType, ErrorView>(
            InterfaceType::Admin,
        ),
        word != "public"@ && word != "internal"@ && word != "admin"@ ==> parse_interface(word)
            == Err::<InterfaceType, ErrorView>(unknown_interface(word)),
{
    reveal_strlit("public");
    reveal_strlit("internal");
    reveal_strlit("admin");
    assert("public"@.len() == 6 && "internal"@.len() == 8 && "admin"@.len() == 5);
}

/// Without `OS_CLOUD`, an `OS_INTERFACE` that is none of `public`,
/// `internal` and `admin` fails resolution.
pub proof fn lemma_unknown_interface(
    env: Map<Seq<char>, Seq<char>>,
    source: ConfigSourceView,
    word: Seq<char>,
)
    requires
        variable(env, OS_CLOUD@) is None,
        variable(env, OS_INTERFACE@) == Some(word),
        word != "public"@,
        word != "internal"@,
        word != "admin"@,
    ensures
        parse_interface(word) matches Err(error) && error.kind == ErrorKind::InvalidInput,
        resolve_env(env, source) is Err,
{
}

/// Without `OS_CLOUD`, the configuration file has no say: resolution from
/// the environment comes out the same whatever came of reading the file.
pub proof fn lemma_source_unused(
    env: Map<Seq<char>, Seq<char>>,
    source: ConfigSourceView,
    other: ConfigSourceView,
)
    requires
        variable(env, OS_CLOUD@) is None,
    ensures
        resolve_env(env, source) == resolve_env(env, other),
{
}

/// Resolution consults the listed variables and no others: two environments
/// that agree on every listed variable resolve alike.
pub proof fn lemma_only_consulted_variables(
    env: Map<Seq<char>, Seq<char>>,
    other: Map<Seq<char>, Seq<char>>,
    source: ConfigSourceView,
)
    requires
        forall|i: int|
            0 <= i < consulted().len() ==> variable(env, (#[trigger] consulted()[i])@) == variable(
                other,
                consulted()[i]@,
            ),
    ensures
        resolve_env(env, source) == resolve_env(other, source),
{
    assert(consulted()[0] == OS_CLOUD);
    assert(consulted()[1] == OS_AUTH_URL);
    assert(consulted()[2] == OS_USERNAME);
    assert(consulted()[3] == OS_PASSWORD);
    assert(consulted()[4] == OS_USER_DOMAIN_NAME);
    assert(consulted()[5] == OS_PROJECT_ID);
    assert(consulted()[6] == OS_PROJECT_NAME);
    assert(consulted()[7] == OS_PROJECT_DOMAIN_ID);
    assert(consulted()[8] == OS_PROJECT_DOMAIN_NAME);
    assert(consulted()[9] == OS_INTERFACE);
}

/// Resolving the same cloud from the same configuration again gives the
/// same outcome: any two results that `from_config` can hand back for one
/// name and for sources of one content agree in every field.
pub proof fn lemma_repeatable(
    name: Seq<char>,
    source: ConfigSource,
    again: ConfigSource,
    first: Result<Session, Error>,
    second: Result<Session, Error>,
)
    requires
        source@ == again@,
        result_view(first) == resolve_cloud(name, source@),
        result_view(second) == resolve_cloud(name, again@),
    ensures
        result_view(first) == result_view(second),
{
}

} // verus!
