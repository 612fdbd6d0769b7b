//! The set of HTTP clients of the relay and the choice of one of them for a
//! destination.

use vstd::prelude::*;
use vstd::string::*;
use crate::adresse::{route_adresse, route_destination, Route};
use crate::constantes::URL_CONSIGNATION_DEFAUT;
use crate::messages_struct::ConfigurationNotifications;

verus! {

/// Why no client can be used for a destination.
#[derive(Clone, Copy, Debug, PartialEq, Eq, Structural)]
pub enum TransportError {
    /// The address of the destination cannot be parsed.
    UrlInvalide,
    /// The address of the destination names no host.
    HoteManquant,
    /// The destination is an onion service and no Tor client is configured.
    TorUnavailable,
    /// The destination is any other host and no remote client is
    /// configured.
    RemoteClientUnavailable,
}

/// Which of the clients that reach remote domains is meant.
#[derive(Clone, Copy, Debug, PartialEq, Eq, Structural)]
pub enum TypeClient {
    /// The client whose traffic goes through the Tor proxy.
    Tor,
    /// The client that connects over TLS directly.
    Remote,
}

/// The state shared by every transfer: up to three long-lived clients of
/// type `C`, the address of the local storage and the notification
/// settings.
#[derive(Clone, Debug)]
pub struct GestionnairePostmaster<C> {
    /// Client with the node's own certificate, for the local storage.
    pub http_client_local: Option<C>,
    /// Client for third-party domains.
    pub http_client_remote: Option<C>,
    /// Client for onion services.
    pub http_client_tor: Option<C>,
    /// Address of the local storage.
    pub url_consignation: String,
    /// Notification settings, once loaded.
    pub configuration_notifications: Option<ConfigurationNotifications>,
}

/// The client meant for `route` when Tor and the remote client are
/// configured or not.
pub open spec fn client_pour(route: Route, tor: bool, remote: bool) -> Result<
    TypeClient,
    TransportError,
> {
    match route {
        Route::Invalide => Err(TransportError::UrlInvalide),
        Route::SansHote => Err(TransportError::HoteManquant),
        Route::Onion => if tor {
            Ok(TypeClient::Tor)
        } else {
            Err(TransportError::TorUnavailable)
        },
        Route::Clair => if remote {
            Ok(TypeClient::Remote)
        } else {
            Err(TransportError::RemoteClientUnavailable)
        },
    }
}

/// Chooses the client for a destination reached by `route`.
pub fn choisir_client(route: Route, tor: bool, remote: bool) -> (r: Result<
    TypeClient,
    TransportError,
>)
    ensures
        r == client_pour(route, tor, remote),
        r == Err::<TypeClient, TransportError>(TransportError::TorUnavailable) <==> route
            == Route::Onion && !tor,
        r == Err::<TypeClient, TransportError>(TransportError::RemoteClientUnavailable) <==> route
            == Route::Clair && !remote,
{
    match route {
        Route::Invalide => Err(TransportError::UrlInvalide),
        Route::SansHote => Err(TransportError::HoteManquant),
        Route::Onion => {
            if tor {
                Ok(TypeClient::Tor)
            } else {
                Err(TransportError::TorUnavailable)
            }
        },
        Route::Clair => {
            if remote {
                Ok(TypeClient::Remote)
            } else {
                Err(TransportError::RemoteClientUnavailable)
            }
        },
    }
}

impl<C> GestionnairePostmaster<C> {
    /// A manager without any client, whose local storage is at the default
    /// address.
    pub fn new() -> (r: Self)
        ensures
            r.http_client_local is None,
            r.http_client_remote is None,
            r.http_client_tor is None,
            r.configuration_notifications is None,
            r.url_consignation@ == URL_CONSIGNATION_DEFAUT@,
    {
        GestionnairePostmaster {
            http_client_local: None,
            http_client_remote: None,
            http_client_tor: None,
            url_consignation: String::from_str(URL_CONSIGNATION_DEFAUT),
            configuration_notifications: None,
        }
    }

    /// Whether a Tor client is configured.
    pub open spec fn tor_disponible(&self) -> bool {
        self.http_client_tor is Some
    }

    /// Whether a client for third-party domains is configured.
    pub open spec fn remote_disponible(&self) -> bool {
        self.http_client_remote is Some
    }

    /// The client of the given kind, where it is configured.
    pub open spec fn client(&self, genre: TypeClient) -> Option<C> {
        match genre {
            TypeClient::Tor => self.http_client_tor,
            TypeClient::Remote => self.http_client_remote,
        }
    }

    /// The configured client of the given kind, if there is one.
    pub fn client_du_genre(&self, genre: TypeClient) -> (r: Option<&C>)
        ensures
            r is Some <==> self.client(genre) is Some,
            r is Some ==> *r->0 == self.client(genre)->0,
    {
        match genre {
            TypeClient::Tor => self.http_client_tor.as_ref(),
            TypeClient::Remote => self.http_client_remote.as_ref(),
        }
    }

    /// Tells whether a Tor client is configured.
    pub fn a_client_tor(&self) -> (r: bool)
        ensures
            r == self.tor_disponible(),
    {
        self.http_client_tor.is_some()
    }

    /// Tells whether a client for third-party domains is configured.
    pub fn a_client_remote(&self) -> (r: bool)
        ensures
            r == self.remote_disponible(),
    {
        self.http_client_remote.is_some()
    }
}

/// What `get_client` returns for a destination reached by `route`.
pub open spec fn client_de<C>(gestionnaire: GestionnairePostmaster<C>, route: Route) -> Result<
    C,
    TransportError,
> {
    match client_pour(route, gestionnaire.tor_disponible(), gestionnaire.remote_disponible()) {
        Ok(genre) => Ok(gestionnaire.client(genre)->0),
        Err(e) => Err(e),
    }
}

/// The client to use for the destination at `url`: the Tor client for an
/// onion service, the remote client for any other host.
pub fn get_client<'a, C>(gestionnaire: &'a GestionnairePostmaster<C>, url: &str) -> (r: Result<
    &'a C,
    TransportError,
>)
    ensures
        match r {
            Ok(c) => client_de(*gestionnaire, route_adresse(url@)) == Ok::<C, TransportError>(*c),
            Err(e) => client_de(*gestionnaire, route_adresse(url@)) == Err::<C, TransportError>(e),
        },
        r == Err::<&C, TransportError>(TransportError::TorUnavailable) <==> route_adresse(url@)
            == Route::Onion && !gestionnaire.tor_disponible(),
        r == Err::<&C, TransportError>(TransportError::RemoteClientUnavailable) <==> route_adresse(
            url@,
        ) == Route::Clair && !gestionnaire.remote_disponible(),
{
    let route = route_destination(url);
    let choix = choisir_client(
        route,
        gestionnaire.http_client_tor.is_some(),
        gestionnaire.http_client_remote.is_some(),
    );
    match choix {
        Ok(genre) => match gestionnaire.client_du_genre(genre) {
            Some(c) => Ok(c),
            None => match genre {
                TypeClient::Tor => Err(TransportError::TorUnavailable),
                TypeClient::Remote => Err(TransportError::RemoteClientUnavailable),
            },
        },
        Err(e) => Err(e),
    }
}

} // verus!
