//! The identity that a session authenticates with: a user name and password
//! bound to an authentication URL, optionally scoped to a project.

use vstd::prelude::*;
use crate::error::{Error, ErrorView};
use crate::filters::{EndpointFilters, EndpointFiltersView};
use crate::views::{option_view, result_view};

verus! {

/// The domain assumed for a user or a project when none is named.
pub const DEFAULT_DOMAIN: &'static str = "Default";

/// A project or domain, told either by its identifier or by its name.
#[derive(Clone, Debug, PartialEq, Eq)]
pub enum IdOrName {
    /// An opaque identifier.
    Id(String),
    /// A name as people write it.
    Name(String),
}

/// The mathematical content of an [`IdOrName`].
pub enum IdOrNameView {
    Id(Seq<char>),
    Name(Seq<char>),
}

impl View for IdOrName {
    type V = IdOrNameView;

    open spec fn view(&self) -> IdOrNameView {
        match self {
            IdOrName::Id(id) => IdOrNameView::Id(id@),
            IdOrName::Name(name) => IdOrNameView::Name(name@),
        }
    }
}

/// The context in which an authenticated session operates.
#[derive(Clone, Debug, PartialEq, Eq)]
pub enum Scope {
    /// A project, and the domain it belongs to where that is known.
    Project { project: IdOrName, domain: Option<IdOrName> },
}

/// The mathematical content of a [`Scope`].
pub enum ScopeView {
    Project { project: IdOrNameView, domain: Option<IdOrNameView> },
}

impl View for Scope {
    type V = ScopeView;

    open spec fn view(&self) -> ScopeView {
        match self {
            Scope::Project { project, domain } => ScopeView::Project {
                project: project@,
                domain: option_view(*domain),
            },
        }
    }
}

/// Password authentication against an identity service.
#[derive(Clone, Debug, PartialEq, Eq)]
pub struct Password {
    /// Where the identity service is reached.
    pub auth_url: String,
    pub user_name: String,
    pub password: String,
    /// The domain that the user belongs to.
    pub user_domain: String,
    /// The scope requested, if any.
    pub scope: Option<Scope>,
    /// The endpoint filters that sessions built on this identity start with.
    pub filters: EndpointFilters,
}

/// The mathematical content of a [`Password`].
pub struct PasswordView {
    pub auth_url: Seq<char>,
    pub user_name: Seq<char>,
    pub password: Seq<char>,
    pub user_domain: Seq<char>,
    pub scope: Option<ScopeView>,
    pub filters: EndpointFiltersView,
}

impl PasswordView {
    /// What [`Password::new`] makes of its arguments: an unscoped identity
    /// with nothing filtered. No argument is refused.
    pub open spec fn new(
        auth_url: Seq<char>,
        user_name: Seq<char>,
        password: Seq<char>,
        user_domain: Seq<char>,
    ) -> Result<PasswordView, ErrorView> {
        Ok(
            PasswordView {
                auth_url,
                user_name,
                password,
                user_domain,
                scope: None,
                filters: EndpointFiltersView::unset(),
            },
        )
    }

    /// This identity with its scope replaced.
    pub open spec fn with_scope(self, scope: ScopeView) -> PasswordView {
        PasswordView { scope: Some(scope), ..self }
    }

    /// This identity scoped to a project.
    pub open spec fn with_project_scope(
        self,
        project: IdOrNameView,
        domain: Option<IdOrNameView>,
    ) -> PasswordView {
        self.with_scope(ScopeView::Project { project, domain })
    }

    /// This identity with its endpoint filters replaced.
    pub open spec fn with_filters(self, filters: EndpointFiltersView) -> PasswordView {
        PasswordView { filters, ..self }
    }
}

impl View for Password {
    type V = PasswordView;

    open spec fn view(&self) -> PasswordView {
        PasswordView {
            auth_url: self.auth_url@,
            user_name: self.user_name@,
            password: self.password@,
            user_domain: self.user_domain@,
            scope: option_view(self.scope),
            filters: self.filters@,
        }
    }
}

impl Password {
    /// An unscoped password identity.
    ///
    /// The URL is kept as it is written. URLs are not parsed here, so no value
    /// is refused: the identity service is the judge of what it is handed.
    pub fn new(auth_url: &str, user_name: String, password: String, user_domain: String) -> (made:
        Result<Password, Error>)
        ensures
            result_view(made) == PasswordView::new(auth_url@, user_name@, password@, user_domain@),
    {
        Ok(
            Password {
                auth_url: auth_url.to_owned(),
                user_name,
                password,
                user_domain,
                scope: None,
                filters: EndpointFilters::default(),
            },
        )
    }

    /// Replaces the scope.
    pub fn set_scope(&mut self, scope: Scope)
        ensures
            final(self)@ == old(self)@.with_scope(scope@),
    {
        self.scope = Some(scope);
    }

    /// This identity, scoped to a project.
    pub fn with_project_scope(self, project: IdOrName, domain: Option<IdOrName>) -> (scoped: Password)
        ensures
            scoped@ == self@.with_project_scope(project@, option_view(domain)),
    {
        let mut scoped = self;
        scoped.set_scope(Scope::Project { project, domain });
        scoped
    }

    /// The endpoint filters, open to change.
    pub fn endpoint_filters_mut(&mut self) -> (filters: &mut EndpointFilters)
        ensures
            *filters == old(self).filters,
            final(self)@ == old(self)@.with_filters(final(filters)@),
    {
        &mut self.filters
    }
}

} // verus!
