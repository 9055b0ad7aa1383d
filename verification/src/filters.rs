//! Criteria by which a service endpoint is chosen once a session is authenticated.

use vstd::prelude::*;
use vstd::string::*;
use crate::error::{Error, ErrorKind, ErrorView};
use crate::views::option_view;

verus! {

/// How a service endpoint is exposed on the network.
#[derive(Clone, Copy, Debug, PartialEq, Eq, Structural)]
pub enum InterfaceType {
    Public,
    Internal,
    Admin,
}

/// The failure reported for a word that names no interface type.
pub open spec fn unknown_interface(word: Seq<char>) -> ErrorView {
    ErrorView { kind: ErrorKind::InvalidInput, message: "Unknown interface type: "@ + word }
}

/// The interface type that a word names: `public`, `internal` or `admin`,
/// written exactly so; any other word is a failure.
pub open spec fn parse_interface(word: Seq<char>) -> Result<InterfaceType, ErrorView> {
    if word == "public"@ {
        Ok(InterfaceType::Public)
    } else if word == "internal"@ {
        Ok(InterfaceType::Internal)
    } else if word == "admin"@ {
        Ok(InterfaceType::Admin)
    } else {
        Err(unknown_interface(word))
    }
}

impl InterfaceType {
    /// Reads an interface type from the word that names it.
    pub fn from_str(word: &str) -> (parsed: Result<InterfaceType, Error>)
        ensures
            match parsed {
                Ok(interface) => parse_interface(word@) == Ok::<InterfaceType, ErrorView>(interface),
                Err(error) => parse_interface(word@) == Err::<InterfaceType, ErrorView>(error@),
            },
    {
        let given: String = word.to_owned();
        if given == "public".to_owned() {
            Ok(InterfaceType::Public)
        } else if given == "internal".to_owned() {
            Ok(InterfaceType::Internal)
        } else if given == "admin".to_owned() {
            Ok(InterfaceType::Admin)
        } else {
            Err(
                Error::new(
                    ErrorKind::InvalidInput,
                    String::from_str("Unknown interface type: ").concat(word),
                ),
            )
        }
    }
}

/// Which endpoints of a service a session may use.
#[derive(Clone, Debug, PartialEq, Eq)]
pub struct EndpointFilters {
    /// The region to which endpoints are restricted, if any.
    pub region: Option<String>,
    /// The interface type to which endpoints are restricted, if any.
    pub interfaces: Option<InterfaceType>,
}

/// The mathematical content of [`EndpointFilters`].
pub struct EndpointFiltersView {
    pub region: Option<Seq<char>>,
    pub interfaces: Option<InterfaceType>,
}

impl EndpointFiltersView {
    /// Filters that restrict nothing.
    pub open spec fn unset() -> EndpointFiltersView {
        EndpointFiltersView { region: None, interfaces: None }
    }

    /// These filters with the region replaced.
    pub open spec fn with_region(self, region: Option<Seq<char>>) -> EndpointFiltersView {
        EndpointFiltersView { region, ..self }
    }

    /// These filters with the interface type replaced.
    pub open spec fn with_interfaces(self, interfaces: Option<InterfaceType>) -> EndpointFiltersView {
        EndpointFiltersView { interfaces, ..self }
    }
}

impl View for EndpointFilters {
    type V = EndpointFiltersView;

    open spec fn view(&self) -> EndpointFiltersView {
        EndpointFiltersView { region: option_view(self.region), interfaces: self.interfaces }
    }
}

/// A copy of an optional text.
fn copy_text(value: &Option<String>) -> (copy: Option<String>)
    ensures
        option_view(copy) == option_view(*value),
{
    match value {
        Some(text) => Some(text.clone()),
        None => None,
    }
}

impl Default for EndpointFilters {
    /// Filters that restrict nothing.
    fn default() -> (filters: EndpointFilters)
        ensures
            filters@ == EndpointFiltersView::unset(),
    {
        EndpointFilters { region: None, interfaces: None }
    }
}

impl EndpointFilters {
    /// Restricts endpoints to one interface type, leaving the region as it is.
    pub fn set_interfaces(&mut self, interface: InterfaceType)
        ensures
            final(self)@ == old(self)@.with_interfaces(Some(interface)),
    {
        self.interfaces = Some(interface);
    }

    /// A copy of these filters.
    pub fn duplicate(&self) -> (copy: EndpointFilters)
        ensures
            copy@ == self@,
    {
        EndpointFilters { region: copy_text(&self.region), interfaces: self.interfaces }
    }
}

} // verus!
