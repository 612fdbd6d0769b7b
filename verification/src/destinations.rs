//! The order in which the endpoints of a remote domain are tried.

use vstd::prelude::*;
use crate::adresse::{route_adresse, route_destination, Route};
use crate::gestionnaire::TypeClient;
use crate::messages_struct::{
    FicheApplication,
    FicheMillegrilleApplication,
    ReponseFichesApplication,
};

verus! {

/// The positions of `routes` that hold `voulue`, in increasing order.
pub open spec fn indices_route(routes: Seq<Route>, voulue: Route) -> Seq<int>
    decreases routes.len(),
{
    if routes.len() == 0 {
        Seq::empty()
    } else {
        let avant = indices_route(routes.drop_last(), voulue);
        if routes.last() == voulue {
            avant.push(routes.len() - 1)
        } else {
            avant
        }
    }
}

/// The order in which the endpoints are tried, as positions in the catalog:
/// the onion services first, if Tor is there to reach them, then the other
/// hosts, each group in the order of the catalog. Endpoints whose address
/// cannot be parsed or names no host are left out, and so are onion
/// services without Tor.
pub open spec fn ordre_destinations(routes: Seq<Route>, tor_disponible: bool) -> Seq<int> {
    ordre_candidats(routes, tor_disponible, true)
}

/// The order in which the endpoints that some client can reach are tried, as
/// positions in the catalog: the onion services if there is a Tor client,
/// then the other hosts if there is a remote client, each group in the
/// order of the catalog.
pub open spec fn ordre_candidats(
    routes: Seq<Route>,
    tor_disponible: bool,
    remote_disponible: bool,
) -> Seq<int> {
    let onions = if tor_disponible {
        indices_route(routes, Route::Onion)
    } else {
        Seq::empty()
    };
    let clairs = if remote_disponible {
        indices_route(routes, Route::Clair)
    } else {
        Seq::empty()
    };
    onions + clairs
}

/// The route of each endpoint of a catalog.
pub open spec fn routes_de(applications: Seq<FicheApplication>) -> Seq<Route> {
    Seq::new(applications.len(), |i: int| route_adresse(applications[i].url@))
}

/// The endpoints of a catalog in the order in which they are tried.
pub open spec fn destinations_triees(
    applications: Seq<FicheApplication>,
    tor_disponible: bool,
) -> Seq<FicheApplication> {
    ordre_destinations(routes_de(applications), tor_disponible).map_values(
        |i: int| applications[i],
    )
}

/// Every position listed for a route is a position of the catalog that
/// holds this route, and the positions increase.
pub proof fn lemme_indices_route(routes: Seq<Route>, voulue: Route)
    ensures
        indices_route(routes, voulue).len() <= routes.len(),
        forall|k: int|
            0 <= k < indices_route(routes, voulue).len() ==> 0 <= #[trigger] indices_route(
                routes,
                voulue,
            )[k] < routes.len() && routes[indices_route(routes, voulue)[k]] == voulue,
        forall|j: int, k: int|
            0 <= j < k < indices_route(routes, voulue).len() ==> #[trigger] indices_route(
                routes,
                voulue,
            )[j] < #[trigger] indices_route(routes, voulue)[k],
        forall|i: int|
            0 <= i < routes.len() && routes[i] == voulue ==> indices_route(
                routes,
                voulue,
            ).contains(i),
    decreases routes.len(),
{
    if routes.len() > 0 {
        let debut = routes.drop_last();
        lemme_indices_route(debut, voulue);
        let avant = indices_route(debut, voulue);
        let tout = indices_route(routes, voulue);
        assert forall|i: int| 0 <= i < routes.len() && routes[i] == voulue implies tout.contains(
            i,
        ) by {
            if i < debut.len() {
                assert(debut[i] == voulue);
                let k = choose|k: int| 0 <= k < avant.len() && avant[k] == i;
                assert(tout[k] == i);
            } else {
                assert(tout[tout.len() - 1] == i);
            }
        }
    }
}

/// Lists the positions of `routes` in the order in which the endpoints are
/// tried.
pub fn ordonner_destinations(routes: &Vec<Route>, tor_disponible: bool) -> (r: Vec<usize>)
    ensures
        r@.map_values(|i: usize| i as int) == ordre_destinations(routes@, tor_disponible),
{
    ordonner_candidats(routes, tor_disponible, true)
}

/// Lists the positions of `routes` that some client can reach, in the order
/// in which the endpoints are tried.
pub fn ordonner_candidats(routes: &Vec<Route>, tor_disponible: bool, remote_disponible: bool) -> (r:
    Vec<usize>)
    ensures
        r@.map_values(|i: usize| i as int) == ordre_candidats(
            routes@,
            tor_disponible,
            remote_disponible,
        ),
{
    let mut ordre: Vec<usize> = Vec::new();
    let mut nb_onion: usize = 0;
    let n: usize = routes.len();
    let mut i: usize = 0;
    while i < n
        invariant
            0 <= i <= n,
            n == routes@.len(),
            nb_onion <= ordre@.len() <= i,
            ordre@.map_values(|i: usize| i as int) == ordre_candidats(
                routes@.take(i as int),
                tor_disponible,
                remote_disponible,
            ),
            tor_disponible ==> nb_onion == indices_route(routes@.take(i as int), Route::Onion).len(),
            !tor_disponible ==> nb_onion == 0,
        decreases n - i,
    {
        let ghost avant = routes@.take(i as int);
        let ghost apres = routes@.take(i + 1);
        let ghost vue_avant = ordre@.map_values(|i: usize| i as int);
        let ghost onions = if tor_disponible {
            indices_route(avant, Route::Onion)
        } else {
            Seq::empty()
        };
        let ghost clairs = if remote_disponible {
            indices_route(avant, Route::Clair)
        } else {
            Seq::empty()
        };
        proof {
            assert(apres.drop_last() =~= avant);
            assert(apres.last() == routes@[i as int]);
            assert(apres.len() - 1 == i);
            assert(vue_avant == onions + clairs);
        }
        match routes[i] {
            Route::Onion => {
                assert(indices_route(apres, Route::Clair) == indices_route(avant, Route::Clair));
                if tor_disponible {
                    ordre.insert(nb_onion, i);
                    nb_onion = nb_onion + 1;
                    proof {
                        assert(indices_route(apres, Route::Onion) == onions.push(i as int));
                        assert(ordre@.map_values(|i: usize| i as int) =~= vue_avant.insert(
                            onions.len() as int,
                            i as int,
                        ));
                        assert(vue_avant.insert(onions.len() as int, i as int) =~= onions.push(
                            i as int,
                        ) + clairs);
                    }
                }
            },
            Route::Clair => {
                assert(indices_route(apres, Route::Onion) == indices_route(avant, Route::Onion));
                if remote_disponible {
                    ordre.push(i);
                    proof {
                        assert(indices_route(apres, Route::Clair) == clairs.push(i as int));
                        assert(ordre@.map_values(|i: usize| i as int) =~= vue_avant.push(i as int));
                        assert(vue_avant.push(i as int) =~= onions + clairs.push(i as int));
                    }
                }
            },
            _ => {
                assert(indices_route(apres, Route::Onion) == indices_route(avant, Route::Onion));
                assert(indices_route(apres, Route::Clair) == indices_route(avant, Route::Clair));
            },
        }
        i = i + 1;
    }
    assert(routes@.take(n as int) =~= routes@);
    ordre
}

/// Reads the route of each endpoint of a catalog.
pub fn classer_destinations(applications: &Vec<FicheApplication>) -> (r: Vec<Route>)
    ensures
        r@ == routes_de(applications@),
{
    let mut routes: Vec<Route> = Vec::new();
    let n: usize = applications.len();
    let mut i: usize = 0;
    while i < n
        invariant
            0 <= i <= n,
            n == applications@.len(),
            routes@.len() == i,
            forall|k: int| 0 <= k < i ==> routes@[k] == route_adresse(applications@[k].url@),
        decreases n - i,
    {
        let route = route_destination(applications[i].url.as_str());
        routes.push(route);
        i = i + 1;
    }
    assert(routes@ =~= routes_de(applications@));
    routes
}

/// The endpoints behind a list of references.
pub open spec fn valeurs(references: Seq<&FicheApplication>) -> Seq<FicheApplication> {
    references.map_values(|a: &FicheApplication| *a)
}

/// Puts the endpoints of a catalog in the order in which they are tried:
/// onion services first when Tor is available, left out when it is not.
pub fn trier_destinations<'a>(fiche: &'a FicheMillegrilleApplication, tor_disponible: bool) -> (r:
    Vec<&'a FicheApplication>)
    ensures
        valeurs(r@) == destinations_triees(fiche.application@, tor_disponible),
{
    let routes = classer_destinations(&fiche.application);
    let ordre = ordonner_destinations(&routes, tor_disponible);
    let ghost positions = ordre_destinations(routes@, tor_disponible);
    proof {
        lemme_ordre_candidats(routes@, tor_disponible, true);
    }
    let mut destinations: Vec<&'a FicheApplication> = Vec::new();
    let n: usize = ordre.len();
    let mut k: usize = 0;
    while k < n
        invariant
            0 <= k <= n,
            n == ordre@.len(),
            routes@.len() == fiche.application@.len(),
            ordre@.map_values(|i: usize| i as int) == positions,
            forall|j: int| 0 <= j < positions.len() ==> 0 <= #[trigger] positions[j] < routes@.len(),
            destinations@.len() == k,
            forall|j: int|
                0 <= j < k ==> *(#[trigger] destinations@[j]) == fiche.application@[positions[j]],
        decreases n - k,
    {
        let i: usize = ordre[k];
        assert(positions[k as int] == i as int);
        destinations.push(&fiche.application[i]);
        k = k + 1;
    }
    assert(valeurs(destinations@) =~= destinations_triees(fiche.application@, tor_disponible));
    destinations
}

/// The order of the candidates lists positions of the catalog only, those
/// of the onion services before those of the other hosts, each group in
/// increasing order, and leaves out no endpoint that a client can reach.
pub proof fn lemme_ordre_candidats(routes: Seq<Route>, tor: bool, remote: bool)
    ensures
        forall|k: int|
            0 <= k < ordre_candidats(routes, tor, remote).len() ==> {
                let i = #[trigger] ordre_candidats(routes, tor, remote)[k];
                0 <= i < routes.len() && ((remote && routes[i] == Route::Clair) || (tor
                    && routes[i] == Route::Onion))
            },
        forall|j: int, k: int|
            0 <= j < k < ordre_candidats(routes, tor, remote).len() ==> {
                let a = #[trigger] ordre_candidats(routes, tor, remote)[j];
                let b = #[trigger] ordre_candidats(routes, tor, remote)[k];
                &&& routes[a] == routes[b] ==> a < b
                &&& !(routes[a] == Route::Clair && routes[b] == Route::Onion)
            },
        forall|i: int|
            0 <= i < routes.len() && ((remote && routes[i] == Route::Clair) || (tor && routes[i]
                == Route::Onion)) ==> ordre_candidats(routes, tor, remote).contains(i),
{
    lemme_indices_route(routes, Route::Onion);
    lemme_indices_route(routes, Route::Clair);
    let onions = if tor {
        indices_route(routes, Route::Onion)
    } else {
        Seq::empty()
    };
    let clairs = if remote {
        indices_route(routes, Route::Clair)
    } else {
        Seq::empty()
    };
    let ordre = ordre_candidats(routes, tor, remote);
    assert forall|i: int|
        0 <= i < routes.len() && ((remote && routes[i] == Route::Clair) || (tor && routes[i]
            == Route::Onion)) implies ordre.contains(i) by {
        if routes[i] == Route::Clair {
            let k = choose|k: int| 0 <= k < clairs.len() && clairs[k] == i;
            assert(ordre[onions.len() + k] == i);
        } else {
            let k = choose|k: int| 0 <= k < onions.len() && onions[k] == i;
            assert(ordre[k] == i);
        }
    }
}

/// An endpoint that can be tried: its address and the client that reaches
/// it.
#[derive(Clone, Debug, PartialEq, Eq)]
pub struct Candidat {
    pub url: String,
    pub client: TypeClient,
}

/// The client that reaches a destination by `route`.
pub open spec fn client_route(route: Route) -> TypeClient {
    if route == Route::Onion {
        TypeClient::Tor
    } else {
        TypeClient::Remote
    }
}

/// The endpoints of a catalog that some client can reach, in the order in
/// which they are tried, each with its client.
pub open spec fn candidats_de(
    applications: Seq<FicheApplication>,
    tor_disponible: bool,
    remote_disponible: bool,
) -> Seq<Candidat> {
    ordre_candidats(routes_de(applications), tor_disponible, remote_disponible).map_values(
        |i: int|
            Candidat {
                url: applications[i].url,
                client: client_route(route_adresse(applications[i].url@)),
            },
    )
}

/// Lists the endpoints of a catalog that some client can reach, in the order
/// in which they are tried.
pub fn candidats_domaine(
    fiche: &FicheMillegrilleApplication,
    tor_disponible: bool,
    remote_disponible: bool,
) -> (r: Vec<Candidat>)
    ensures
        r@ == candidats_de(fiche.application@, tor_disponible, remote_disponible),
{
    let routes = classer_destinations(&fiche.application);
    let ordre = ordonner_candidats(&routes, tor_disponible, remote_disponible);
    let ghost positions = ordre_candidats(routes@, tor_disponible, remote_disponible);
    proof {
        lemme_ordre_candidats(routes@, tor_disponible, remote_disponible);
    }
    let mut candidats: Vec<Candidat> = Vec::new();
    let n: usize = ordre.len();
    let mut k: usize = 0;
    while k < n
        invariant
            0 <= k <= n,
            n == ordre@.len(),
            routes@ == routes_de(fiche.application@),
            ordre@.map_values(|i: usize| i as int) == positions,
            forall|j: int| 0 <= j < positions.len() ==> 0 <= #[trigger] positions[j] < routes@.len(),
            candidats@.len() == k,
            forall|j: int|
                0 <= j < k ==> #[trigger] candidats@[j] == (Candidat {
                    url: fiche.application@[positions[j]].url,
                    client: client_route(routes@[positions[j]]),
                }),
        decreases n - k,
    {
        let i: usize = ordre[k];
        assert(positions[k as int] == i as int);
        let client = match routes[i] {
            Route::Onion => TypeClient::Tor,
            _ => TypeClient::Remote,
        };
        candidats.push(Candidat { url: fiche.application[i].url.clone(), client });
        k = k + 1;
    }
    assert(candidats@ =~= candidats_de(fiche.application@, tor_disponible, remote_disponible));
    candidats
}

/// Takes the catalog out of an answer of the topology service: the answer
/// must hold exactly one.
pub fn choisir_fiche(reponse: ReponseFichesApplication) -> (r: Option<FicheMillegrilleApplication>)
    ensures
        r is Some <==> reponse.fiches@.len() == 1,
        r is Some ==> r->0 == reponse.fiches@[0],
{
    let mut fiches = reponse.fiches;
    if fiches.len() == 1 {
        fiches.pop()
    } else {
        None
    }
}

/// Law: a catalog that lists onion services only gives no destination at
/// all when Tor is not available.
pub proof fn loi_onions_sans_tor(applications: Seq<FicheApplication>)
    requires
        forall|i: int|
            0 <= i < applications.len() ==> route_adresse(#[trigger] applications[i].url@)
                == Route::Onion,
    ensures
        destinations_triees(applications, false) == Seq::<FicheApplication>::empty(),
{
    let routes = routes_de(applications);
    lemme_indices_route(routes, Route::Clair);
    let clairs = indices_route(routes, Route::Clair);
    if clairs.len() > 0 {
        let i = clairs[0];
        assert(routes[i] == Route::Clair);
        assert(route_adresse(applications[i].url@) == Route::Onion);
    }
    assert(ordre_candidats(routes, false, true) =~= Seq::<int>::empty());
    assert(destinations_triees(applications, false) =~= Seq::<FicheApplication>::empty());
}

/// Law: when Tor is available, the destinations are the endpoints of the
/// catalog whose address names a host, each of them once; every onion
/// service comes before every other host, and two endpoints of the same
/// group keep the order that they have in the catalog.
pub proof fn loi_onions_en_premier(applications: Seq<FicheApplication>)
    ensures
        ({
            let ordre = ordre_destinations(routes_de(applications), true);
            let triees = destinations_triees(applications, true);
            &&& triees.len() == ordre.len()
            &&& forall|k: int|
                0 <= k < ordre.len() ==> {
                    &&& 0 <= #[trigger] ordre[k] < applications.len()
                    &&& triees[k] == applications[ordre[k]]
                    &&& (route_adresse(triees[k].url@) == Route::Onion || route_adresse(
                        triees[k].url@,
                    ) == Route::Clair)
                }
            &&& forall|j: int, k: int|
                0 <= j < k < ordre.len() ==> {
                    &&& !(route_adresse((#[trigger] triees[j]).url@) == Route::Clair
                        && route_adresse((#[trigger] triees[k]).url@) == Route::Onion)
                    &&& route_adresse(triees[j].url@) == route_adresse(triees[k].url@) ==> ordre[j]
                        < ordre[k]
                }
            &&& forall|i: int|
                0 <= i < applications.len() && (route_adresse(
                    (#[trigger] applications[i]).url@,
                ) == Route::Onion || route_adresse(applications[i].url@) == Route::Clair)
                    ==> ordre.contains(i)
        }),
{
    let routes = routes_de(applications);
    lemme_ordre_candidats(routes, true, true);
    let ordre = ordre_destinations(routes, true);
    let triees = destinations_triees(applications, true);
    assert forall|k: int| 0 <= k < ordre.len() implies {
        &&& 0 <= #[trigger] ordre[k] < applications.len()
        &&& triees[k] == applications[ordre[k]]
        &&& (route_adresse(triees[k].url@) == Route::Onion || route_adresse(triees[k].url@)
            == Route::Clair)
    } by {
        assert(routes[ordre[k]] == route_adresse(applications[ordre[k]].url@));
    }
    assert forall|j: int, k: int| 0 <= j < k < ordre.len() implies {
        &&& !(route_adresse((#[trigger] triees[j]).url@) == Route::Clair && route_adresse(
            (#[trigger] triees[k]).url@,
        ) == Route::Onion)
        &&& route_adresse(triees[j].url@) == route_adresse(triees[k].url@) ==> ordre[j] < ordre[k]
    } by {
        assert(routes[ordre[j]] == route_adresse(applications[ordre[j]].url@));
        assert(routes[ordre[k]] == route_adresse(applications[ordre[k]].url@));
    }
    assert forall|i: int|
        0 <= i < applications.len() && (route_adresse((#[trigger] applications[i]).url@)
            == Route::Onion || route_adresse(applications[i].url@) == Route::Clair) implies ordre.contains(
        i,
    ) by {
        assert(routes[i] == route_adresse(applications[i].url@));
    }
}

} // verus!
