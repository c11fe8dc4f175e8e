//! The connection state of the admin API client: created with an endpoint and
//! credentials, it must be connected before any call is made.

use vstd::prelude::*;
use crate::http_error::AdminError;

verus! {

/// The credentials the client authenticates with: an API key, and the token of
/// a service account sent as a bearer token.
#[derive(Debug, Clone, PartialEq, Eq)]
pub struct AdminCredentials {
    pub api_key: String,
    pub service_account_token: String,
}

/// The configuration of a connected client.
#[derive(Debug, Clone, PartialEq, Eq)]
pub struct ClientConfig {
    /// The base URL of every request.
    pub base_path: String,
    /// The API key, sent without a prefix.
    pub api_key: String,
    /// The bearer token.
    pub bearer_access_token: String,
}

/// The admin API client.
#[derive(Debug, Clone)]
pub struct AdminClient {
    endpoint: String,
    credentials: AdminCredentials,
    config: Option<ClientConfig>,
}

/// The mathematical value of a client configuration.
pub struct ClientConfigView {
    pub base_path: Seq<char>,
    pub api_key: Seq<char>,
    pub bearer_access_token: Seq<char>,
}

impl View for ClientConfig {
    type V = ClientConfigView;

    open spec fn view(&self) -> ClientConfigView {
        ClientConfigView {
            base_path: self.base_path@,
            api_key: self.api_key@,
            bearer_access_token: self.bearer_access_token@,
        }
    }
}

/// The mathematical value of a client: its endpoint, its credentials, and its
/// configuration once connected.
pub struct AdminClientView {
    pub endpoint: Seq<char>,
    pub api_key: Seq<char>,
    pub service_account_token: Seq<char>,
    pub config: Option<ClientConfigView>,
}

impl View for AdminClient {
    type V = AdminClientView;

    closed spec fn view(&self) -> AdminClientView {
        AdminClientView {
            endpoint: self.endpoint@,
            api_key: self.credentials.api_key@,
            service_account_token: self.credentials.service_account_token@,
            config: match self.config {
                Some(c) => Some(c@),
                None => None,
            },
        }
    }
}

/// The configuration that connecting a client sets up: requests go to the
/// endpoint, with the API key and the service account token as bearer token.
pub open spec fn config_for(v: AdminClientView) -> ClientConfigView {
    ClientConfigView { base_path: v.endpoint, api_key: v.api_key, bearer_access_token: v.service_account_token }
}

/// What connecting a client gives: a connected client stays as it is, an
/// unconnected one gets the configuration of its endpoint and credentials.
pub open spec fn connected(v: AdminClientView) -> AdminClientView {
    match v.config {
        Some(_) => v,
        None => AdminClientView { config: Some(config_for(v)), ..v },
    }
}

impl AdminClient {
    /// Creates a client for an endpoint; it is not connected yet.
    pub fn new(endpoint: &str, credentials: AdminCredentials) -> (c: AdminClient)
        ensures
            c@ == (AdminClientView {
                endpoint: endpoint@,
                api_key: credentials.api_key@,
                service_account_token: credentials.service_account_token@,
                config: None,
            }),
    {
        AdminClient { endpoint: endpoint.to_string(), credentials, config: None }
    }

    /// Connects the client: sets up its configuration, unless it is already connected.
    pub fn connect(self) -> (c: AdminClient)
        ensures
            c@ == connected(self@),
    {
        match self.config {
            Some(_) => self,
            None => {
                let config = ClientConfig {
                    base_path: self.endpoint.clone(),
                    api_key: self.credentials.api_key.clone(),
                    bearer_access_token: self.credentials.service_account_token.clone(),
                };
                AdminClient { endpoint: self.endpoint, credentials: self.credentials, config: Some(config) }
            },
        }
    }

    /// Whether the client is connected.
    pub fn is_connected(&self) -> (b: bool)
        ensures
            b == self@.config is Some,
    {
        self.config.is_some()
    }

    /// The configuration to make a call with; a call on a client that is not
    /// connected fails with `NotConnected`.
    pub fn configuration(&self) -> (r: Result<&ClientConfig, AdminError>)
        ensures
            match r {
                Ok(c) => self@.config == Some(c@),
                Err(e) => self@.config is None && e == AdminError::NotConnected,
            },
    {
        match &self.config {
            Some(c) => Ok(c),
            None => Err(AdminError::NotConnected),
        }
    }
}

/// Connecting is idempotent, and a connected client makes its calls to its
/// endpoint with its credentials.
pub proof fn law_connect_idempotent(v: AdminClientView)
    ensures
        connected(connected(v)) == connected(v),
        v.config is None ==> connected(v).config == Some(config_for(v)),
        v.config is Some ==> connected(v) == v,
{
}

} // verus!
