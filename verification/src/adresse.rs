//! Destination addresses: the host that an address names and the network by
//! which it is reached.

use vstd::prelude::*;
use vstd::string::*;
use crate::texte::{finit_par, termine_par};

verus! {

/// The host of an address as the `url` crate reads it: `None` where
/// `url::Url::parse` refuses the address, `Some(None)` where it accepts the
/// address and `Url::host_str` finds no host in it, `Some(Some(h))` where
/// `Url::host_str` returns `h`, a domain name or an IP address.
pub uninterp spec fn hote_url(adresse: Seq<char>) -> Option<Option<Seq<char>>>;

/// The characters of a host read from an address.
pub open spec fn vue_hote(hote: Option<Option<String>>) -> Option<Option<Seq<char>>> {
    match hote {
        Some(Some(h)) => Some(Some(h@)),
        Some(None) => Some(None),
        None => None,
    }
}

/// Calls `url::Url::parse` on `adresse` and `Url::host_str` on what it
/// returns. Trusted: the result is `hote_url` of the address, that is, both
/// calls depend on the characters of the address alone.
#[verifier::external_body]
fn analyser_hote(adresse: &str) -> (r: Option<Option<String>>)
    ensures
        vue_hote(r) == hote_url(adresse@),
{
    match url::Url::parse(adresse) {
        Ok(url) => Some(url.host_str().map(str::to_owned)),
        Err(_) => None,
    }
}

/// How a destination is reached, as far as its address tells.
#[derive(Clone, Copy, Debug, PartialEq, Eq, Structural)]
pub enum Route {
    /// The address cannot be parsed.
    Invalide,
    /// The address names no host.
    SansHote,
    /// The host is an onion service, reached through Tor only.
    Onion,
    /// Any other host, a domain name or an IP address, reached over TLS.
    Clair,
}

/// The suffix of the name of every onion service.
pub open spec fn suffixe_onion() -> Seq<char> {
    seq!['.', 'o', 'n', 'i', 'o', 'n']
}

/// Whether `hote` is the name of an onion service.
pub open spec fn est_onion(hote: Seq<char>) -> bool {
    finit_par(hote, suffixe_onion())
}

/// The route to a destination in whose address the host `hote` was read.
pub open spec fn route_hote(hote: Option<Option<Seq<char>>>) -> Route {
    match hote {
        None => Route::Invalide,
        Some(None) => Route::SansHote,
        Some(Some(h)) => if est_onion(h) {
            Route::Onion
        } else {
            Route::Clair
        },
    }
}

/// The route to the destination at `adresse`.
pub open spec fn route_adresse(adresse: Seq<char>) -> Route {
    route_hote(hote_url(adresse))
}

/// Tells whether `hote` is the name of an onion service.
pub fn hote_onion(hote: &str) -> (r: bool)
    ensures
        r == est_onion(hote@),
{
    proof {
        reveal_strlit(".onion");
        assert(".onion"@ =~= suffixe_onion());
    }
    termine_par(hote, ".onion")
}

/// Chooses the route for a host already read from an address.
pub fn classer_hote(hote: &Option<Option<String>>) -> (r: Route)
    ensures
        r == route_hote(vue_hote(*hote)),
{
    match hote {
        None => Route::Invalide,
        Some(None) => Route::SansHote,
        Some(Some(h)) => {
            if hote_onion(h.as_str()) {
                Route::Onion
            } else {
                Route::Clair
            }
        },
    }
}

/// Reads the host of `adresse` and chooses the route to it.
pub fn route_destination(adresse: &str) -> (r: Route)
    ensures
        r == route_adresse(adresse@),
{
    let hote = analyser_hote(adresse);
    classer_hote(&hote)
}

} // verus!
