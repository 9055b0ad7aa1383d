//! What credential resolution hands back: an identity and the endpoint
//! filters to use with it.

use vstd::prelude::*;
use crate::filters::{EndpointFilters, EndpointFiltersView};
use crate::identity::{Password, PasswordView};

verus! {

/// An identity together with the endpoint filters in force for it.
#[derive(Clone, Debug, PartialEq, Eq)]
pub struct Session {
    pub identity: Password,
    pub endpoint_filters: EndpointFilters,
}

/// The mathematical content of a [`Session`].
pub struct SessionView {
    pub identity: PasswordView,
    pub endpoint_filters: EndpointFiltersView,
}

impl SessionView {
    /// The session that starts from an identity: it takes over the
    /// identity's own endpoint filters.
    pub open spec fn new(identity: PasswordView) -> SessionView {
        SessionView { identity, endpoint_filters: identity.filters }
    }

    /// This session with its endpoint filters replaced.
    pub open spec fn with_filters(self, endpoint_filters: EndpointFiltersView) -> SessionView {
        SessionView { endpoint_filters, ..self }
    }
}

impl View for Session {
    type V = SessionView;

    open spec fn view(&self) -> SessionView {
        SessionView { identity: self.identity@, endpoint_filters: self.endpoint_filters@ }
    }
}

impl Session {
    /// A session on the given identity, starting with that identity's
    /// endpoint filters.
    pub fn new(identity: Password) -> (session: Session)
        ensures
            session@ == SessionView::new(identity@),
    {
        let endpoint_filters = identity.filters.duplicate();
        Session { identity, endpoint_filters }
    }

    /// The endpoint filters, open to change.
    pub fn endpoint_filters_mut(&mut self) -> (filters: &mut EndpointFilters)
        ensures
            *filters == old(self).endpoint_filters,
            final(self)@ == old(self)@.with_filters(final(filters)@),
    {
        &mut self.endpoint_filters
    }
}

} // verus!
