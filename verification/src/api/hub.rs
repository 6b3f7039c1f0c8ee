//! The hub: the settings that every request of this API is made with, and the
//! entry to the methods of its resources.

use vstd::prelude::*;
use vstd::string::StringExecFns;
use crate::api::call::{GetCallView, ProjectGetRemoteConfigCall, ProjectUpdateRemoteConfigCall, UpdateCallView};
use crate::api::params::distinct_names;
use crate::api::schema::RemoteConfig;

verus! {

/// Central instance to access all FirebaseRemoteConfig related resource activities.
///
/// It holds the settings that requests are made with; the HTTP client and the
/// authenticator that carry them out belong to the caller that runs a call.
#[derive(Clone)]
pub struct FirebaseRemoteConfig {
    _user_agent: String,
    _base_url: String,
    _root_url: String,
}

/// The mathematical value of a [`FirebaseRemoteConfig`].
pub struct HubView {
    pub user_agent: Seq<char>,
    pub base_url: Seq<char>,
    pub root_url: Seq<char>,
}

impl View for FirebaseRemoteConfig {
    type V = HubView;

    closed spec fn view(&self) -> HubView {
        HubView { user_agent: self._user_agent@, base_url: self._base_url@, root_url: self._root_url@ }
    }
}

/// The user agent that a new hub sends.
pub open spec fn default_user_agent() -> Seq<char> {
    "google-api-rust-client/6.0.0"@
}

/// The base URL and root URL of a new hub.
pub open spec fn default_url() -> Seq<char> {
    "https://firebaseremoteconfig.googleapis.com/"@
}

impl FirebaseRemoteConfig {
    /// A hub with the default user agent, base URL and root URL.
    pub fn new() -> (hub: FirebaseRemoteConfig)
        ensures
            hub@ == (HubView { user_agent: default_user_agent(), base_url: default_url(), root_url: default_url() }),
            hub@.user_agent == "google-api-rust-client/6.0.0"@,
            hub@.base_url == "https://firebaseremoteconfig.googleapis.com/"@,
            hub@.root_url == "https://firebaseremoteconfig.googleapis.com/"@,
    {
        FirebaseRemoteConfig {
            _user_agent: String::from_str("google-api-rust-client/6.0.0"),
            _base_url: String::from_str("https://firebaseremoteconfig.googleapis.com/"),
            _root_url: String::from_str("https://firebaseremoteconfig.googleapis.com/"),
        }
    }

    /// The methods of the *project* resources.
    pub fn projects<'a>(&'a self) -> (m: ProjectMethods<'a>)
        ensures
            m@ == self@,
    {
        ProjectMethods { hub: self }
    }

    /// Set the user-agent header field to use in all requests to the server.
    /// It defaults to `google-api-rust-client/6.0.0`.
    ///
    /// Returns the previously set user-agent.
    pub fn user_agent(&mut self, agent_name: String) -> (previous: String)
        ensures
            previous@ == old(self)@.user_agent,
            final(self)@ == (HubView { user_agent: agent_name@, ..old(self)@ }),
    {
        let mut previous = agent_name;
        std::mem::swap(&mut self._user_agent, &mut previous);
        previous
    }

    /// Set the base url to use in all requests to the server.
    /// It defaults to `https://firebaseremoteconfig.googleapis.com/`.
    ///
    /// Returns the previously set base url.
    pub fn base_url(&mut self, new_base_url: String) -> (previous: String)
        ensures
            previous@ == old(self)@.base_url,
            final(self)@ == (HubView { base_url: new_base_url@, ..old(self)@ }),
    {
        let mut previous = new_base_url;
        std::mem::swap(&mut self._base_url, &mut previous);
        previous
    }

    /// Set the root url to use in all requests to the server.
    /// It defaults to `https://firebaseremoteconfig.googleapis.com/`.
    ///
    /// Returns the previously set root url.
    pub fn root_url(&mut self, new_root_url: String) -> (previous: String)
        ensures
            previous@ == old(self)@.root_url,
            final(self)@ == (HubView { root_url: new_root_url@, ..old(self)@ }),
    {
        let mut previous = new_root_url;
        std::mem::swap(&mut self._root_url, &mut previous);
        previous
    }

    /// The user agent that requests are sent with.
    pub(crate) fn current_user_agent(&self) -> (s: String)
        ensures
            s@ == self@.user_agent,
    {
        self._user_agent.clone()
    }

    /// The base URL that request URLs start with.
    pub(crate) fn current_base_url(&self) -> (s: String)
        ensures
            s@ == self@.base_url,
    {
        self._base_url.clone()
    }
}

/// A builder providing access to all methods supported on *project* resources.
/// It is not used directly, but through the [`FirebaseRemoteConfig`] hub.
pub struct ProjectMethods<'a> {
    hub: &'a FirebaseRemoteConfig,
}

impl<'a> View for ProjectMethods<'a> {
    type V = HubView;

    closed spec fn view(&self) -> HubView {
        self.hub@
    }
}

impl<'a> ProjectMethods<'a> {
    /// Create a builder to help you perform the following task:
    ///
    /// Get the latest version Remote Configuration for a project.
    /// Returns the RemoteConfig as the payload, and also the eTag as a
    /// response header.
    ///
    /// * `project` - The GMP project identifier. Required.
    pub fn get_remote_config(&self, project: &str) -> (c: ProjectGetRemoteConfigCall<'a>)
        ensures
            distinct_names(c@.additional),
            c@ == (GetCallView {
                hub: self@,
                project: project@,
                additional: Seq::<(Seq<char>, Seq<char>)>::empty(),
            }),
    {
        ProjectGetRemoteConfigCall::new(self.hub, project)
    }

    /// Create a builder to help you perform the following task:
    ///
    /// Update a RemoteConfig. It is treated as an always-existing resource
    /// (when it is not found in the data store, it is treated as version 0, a
    /// template with zero conditions and zero parameters). Hence there are no
    /// Create or Delete operations. Returns the updated template when
    /// successful (and the updated eTag as a response header), or an error if
    /// things go wrong.
    ///
    /// * `request` - The template to store.
    /// * `project` - The GMP project identifier. Required.
    pub fn update_remote_config(&self, request: RemoteConfig, project: &str) -> (c: ProjectUpdateRemoteConfigCall<'a>)
        ensures
            distinct_names(c@.additional),
            c@ == (UpdateCallView {
                hub: self@,
                request: request,
                project: project@,
                validate_only: None,
                additional: Seq::<(Seq<char>, Seq<char>)>::empty(),
            }),
    {
        ProjectUpdateRemoteConfigCall::new(self.hub, request, project)
    }
}

} // verus!
