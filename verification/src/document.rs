//! The typed content of a `clouds.yaml` file, and what became of the attempt
//! to obtain one.

use vstd::prelude::*;
use crate::name_map::NameMap;
use crate::views::option_view;

verus! {

/// The `auth` block of a cloud entry.
#[derive(Clone, Debug, PartialEq, Eq)]
pub struct Auth {
    pub auth_url: String,
    pub password: String,
    pub project_name: Option<String>,
    pub project_domain_name: Option<String>,
    pub username: String,
    pub user_domain_name: Option<String>,
}

/// The mathematical content of an [`Auth`] block.
pub struct AuthView {
    pub auth_url: Seq<char>,
    pub password: Seq<char>,
    pub project_name: Option<Seq<char>>,
    pub project_domain_name: Option<Seq<char>>,
    pub username: Seq<char>,
    pub user_domain_name: Option<Seq<char>>,
}

impl View for Auth {
    type V = AuthView;

    open spec fn view(&self) -> AuthView {
        AuthView {
            auth_url: self.auth_url@,
            password: self.password@,
            project_name: option_view(self.project_name),
            project_domain_name: option_view(self.project_domain_name),
            username: self.username@,
            user_domain_name: option_view(self.user_domain_name),
        }
    }
}

/// The settings of one named cloud.
#[derive(Clone, Debug, PartialEq, Eq)]
pub struct Cloud {
    pub auth: Auth,
    pub region_name: Option<String>,
}

/// The mathematical content of a [`Cloud`] entry.
pub struct CloudView {
    pub auth: AuthView,
    pub region_name: Option<Seq<char>>,
}

impl View for Cloud {
    type V = CloudView;

    open spec fn view(&self) -> CloudView {
        CloudView { auth: self.auth@, region_name: option_view(self.region_name) }
    }
}

/// The cloud entries of a configuration file, by cloud name.
pub type Clouds = NameMap<Cloud>;

/// What came of looking for the configuration file and reading it.
#[derive(Debug)]
pub enum ConfigSource {
    /// No candidate location holds a configuration file.
    NotFound,
    /// A file was found but could not be read; the text says why.
    Unreadable(String),
    /// A file was read but does not have the expected shape; the text says why.
    Unparseable(String),
    /// The file's cloud entries.
    Parsed(Clouds),
}

/// The mathematical content of a [`ConfigSource`].
pub enum ConfigSourceView {
    NotFound,
    Unreadable(Seq<char>),
    Unparseable(Seq<char>),
    Parsed(Map<Seq<char>, CloudView>),
}

impl View for ConfigSource {
    type V = ConfigSourceView;

    open spec fn view(&self) -> ConfigSourceView {
        match self {
            ConfigSource::NotFound => ConfigSourceView::NotFound,
            ConfigSource::Unreadable(reason) => ConfigSourceView::Unreadable(reason@),
            ConfigSource::Unparseable(reason) => ConfigSourceView::Unparseable(reason@),
            ConfigSource::Parsed(clouds) => ConfigSourceView::Parsed(clouds@),
        }
    }
}

} // verus!
