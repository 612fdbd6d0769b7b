//! Posting a message to its destination domains: one request per endpoint
//! of a domain until one accepts the message, then a confirmation for the
//! domain, whatever the outcome.
//!
//! The requests themselves are made by the caller. `PosteMessage` decides:
//! each `ActionPoste` tells the caller what to do next, and the caller hands
//! back what happened as an `EvenementPoste`.

use vstd::prelude::*;
use vstd::string::*;
use crate::constantes::STATUS_SERVICE_INDISPONIBLE;
use crate::destinations::{candidats_de, candidats_domaine, Candidat};
use crate::messages_struct::{
    ConfirmationTransmission,
    ConfirmationTransmissionDestinataire,
    IdmgMappingDestinataires,
};
use crate::requetes_http::{deflate_gzip, est_gzip_de};

verus! {

/// Whether an HTTP status reports a success.
pub open spec fn est_succes(status: u16) -> bool {
    200 <= status < 300
}

/// Tells whether an HTTP status reports a success.
pub fn status_succes(status: u16) -> (r: bool)
    ensures
        r == est_succes(status),
{
    200 <= status && status < 300
}

/// Copies a list of texts.
pub fn copier_textes(textes: &Vec<String>) -> (r: Vec<String>)
    ensures
        r@ == textes@,
{
    let mut copie: Vec<String> = Vec::new();
    let n: usize = textes.len();
    let mut i: usize = 0;
    while i < n
        invariant
            0 <= i <= n,
            n == textes@.len(),
            copie@ == textes@.take(i as int),
        decreases n - i,
    {
        copie.push(textes[i].clone());
        assert(copie@ =~= textes@.take(i + 1));
        i = i + 1;
    }
    assert(textes@.take(n as int) =~= textes@);
    copie
}

/// What is needed to post a message to one domain: the recipients, the
/// endpoints to try in order, and the compressed body.
#[derive(Debug)]
pub struct DestinationPoste {
    pub idmg: String,
    pub destinataires: Vec<String>,
    pub candidats: Vec<Candidat>,
    pub corps: Vec<u8>,
}

/// Prepares the post of a message to one domain: orders the endpoints that
/// a client can reach and compresses `contenu`, the serialized message with
/// the keys of this domain.
pub fn preparer_destination(
    destination: &IdmgMappingDestinataires,
    contenu: &[u8],
    tor_disponible: bool,
    remote_disponible: bool,
) -> (r: DestinationPoste)
    ensures
        r.idmg == destination.idmg,
        r.destinataires@ == destination.destinataires@,
        r.candidats@ == candidats_de(
            destination.fiche.application@,
            tor_disponible,
            remote_disponible,
        ),
        est_gzip_de(r.corps@, contenu@),
{
    DestinationPoste {
        idmg: destination.idmg.clone(),
        destinataires: copier_textes(&destination.destinataires),
        candidats: candidats_domaine(&destination.fiche, tor_disponible, remote_disponible),
        corps: deflate_gzip(contenu),
    }
}

/// The confirmation of a post that ended with `code` for every recipient:
/// each recipient of the domain gets the code of the domain.
pub open spec fn est_confirmation(
    confirmation: ConfirmationTransmission,
    uuid_message: Seq<char>,
    idmg: Seq<char>,
    destinataires: Seq<String>,
    code: u16,
) -> bool {
    &&& confirmation.uuid_message@ == uuid_message
    &&& confirmation.idmg@ == idmg
    &&& confirmation.code == code
    &&& confirmation.destinataires@.len() == destinataires.len()
    &&& forall|i: int|
        0 <= i < destinataires.len() ==> (#[trigger] confirmation.destinataires@[i]).destinataire
            == destinataires[i] && confirmation.destinataires@[i].code == code as u32
}

/// Writes the confirmation of the post of a message to a domain.
pub fn confirmer_transmission(
    uuid_message: &str,
    idmg: &str,
    destinataires: &Vec<String>,
    code: u16,
) -> (r: ConfirmationTransmission)
    ensures
        est_confirmation(r, uuid_message@, idmg@, destinataires@, code),
{
    let mut liste: Vec<ConfirmationTransmissionDestinataire> = Vec::new();
    let n: usize = destinataires.len();
    let mut i: usize = 0;
    while i < n
        invariant
            0 <= i <= n,
            n == destinataires@.len(),
            liste@.len() == i,
            forall|k: int|
                0 <= k < i ==> (#[trigger] liste@[k]).destinataire == destinataires@[k]
                    && liste@[k].code == code as u32,
        decreases n - i,
    {
        liste.push(
            ConfirmationTransmissionDestinataire {
                destinataire: destinataires[i].clone(),
                code: code as u32,
            },
        );
        i = i + 1;
    }
    ConfirmationTransmission {
        uuid_message: uuid_message.to_owned(),
        idmg: idmg.to_owned(),
        destinataires: liste,
        code,
    }
}

/// What the poster is waiting for.
#[derive(Clone, Copy, Debug, PartialEq, Eq, Structural)]
pub enum PhasePoste {
    /// The answer to a request made to an endpoint.
    Envoi,
    /// The word that the confirmation for a domain is on its way.
    Confirmation,
    /// Nothing: every domain has its confirmation.
    Termine,
}

/// Where the poster stands: the domain that it serves, the endpoint that it
/// last tried there, and the status of the last answer that an endpoint of
/// this domain gave (503 as long as none answered).
#[derive(Clone, Copy, Debug, PartialEq, Eq, Structural)]
pub struct CurseurPoste {
    pub domaine: usize,
    pub candidat: usize,
    pub code: u16,
    pub phase: PhasePoste,
}

/// What happened to the last thing that the poster asked for.
#[derive(Clone, Copy, Debug, PartialEq, Eq, Structural)]
pub enum EvenementPoste {
    /// The endpoint answered with this HTTP status.
    Reponse(u16),
    /// The request could not be sent or got no answer.
    EchecEnvoi,
    /// The confirmation has been handed to the bus.
    Confirme,
}

/// What the poster asks of its caller.
#[derive(Clone, Copy, Debug, PartialEq, Eq, Structural)]
pub enum ActionPoste {
    /// Post the body of this domain to this endpoint of its list.
    Poster { domaine: usize, candidat: usize },
    /// Send the confirmation of this domain with this code.
    Confirmer { domaine: usize, code: u16 },
    /// Nothing is left to do.
    Terminer,
    /// The event was not awaited: go on waiting for the one that is.
    Ignorer,
}

/// The number of endpoints of domain `d`, none for a domain that does not
/// exist.
pub open spec fn nb_candidats(nb: Seq<nat>, d: int) -> nat {
    if 0 <= d < nb.len() {
        nb[d]
    } else {
        0
    }
}

/// The poster turns to domain `d`: it asks for a post to the first endpoint,
/// or for a confirmation with 503 where the domain has no endpoint, or stops
/// where there is no such domain.
pub open spec fn aborder(nb: Seq<nat>, d: int) -> (CurseurPoste, ActionPoste) {
    if d < 0 || d >= nb.len() {
        (
            CurseurPoste {
                domaine: nb.len() as usize,
                candidat: 0,
                code: STATUS_SERVICE_INDISPONIBLE,
                phase: PhasePoste::Termine,
            },
            ActionPoste::Terminer,
        )
    } else if nb[d] == 0 {
        (
            CurseurPoste {
                domaine: d as usize,
                candidat: 0,
                code: STATUS_SERVICE_INDISPONIBLE,
                phase: PhasePoste::Confirmation,
            },
            ActionPoste::Confirmer { domaine: d as usize, code: STATUS_SERVICE_INDISPONIBLE },
        )
    } else {
        (
            CurseurPoste {
                domaine: d as usize,
                candidat: 0,
                code: STATUS_SERVICE_INDISPONIBLE,
                phase: PhasePoste::Envoi,
            },
            ActionPoste::Poster { domaine: d as usize, candidat: 0 },
        )
    }
}

/// An attempt ended with `status`: a success, or the failure of the last
/// endpoint, closes the domain with this status; any other failure leads to
/// the next endpoint.
pub open spec fn apres_tentative(nb: Seq<nat>, c: CurseurPoste, status: u16) -> (
    CurseurPoste,
    ActionPoste,
) {
    if est_succes(status) || c.candidat + 1 >= nb_candidats(nb, c.domaine as int) {
        (
            CurseurPoste { code: status, phase: PhasePoste::Confirmation, ..c },
            ActionPoste::Confirmer { domaine: c.domaine, code: status },
        )
    } else {
        (
            CurseurPoste {
                candidat: (c.candidat + 1) as usize,
                code: status,
                phase: PhasePoste::Envoi,
                ..c
            },
            ActionPoste::Poster { domaine: c.domaine, candidat: (c.candidat + 1) as usize },
        )
    }
}

/// The step of the poster: where it stands and what it asks for once
/// `evenement` has happened. A request that could not be sent is a failed
/// attempt that leaves the status of the domain as it was.
pub open spec fn suivant(nb: Seq<nat>, c: CurseurPoste, evenement: EvenementPoste) -> (
    CurseurPoste,
    ActionPoste,
) {
    match c.phase {
        PhasePoste::Envoi => match evenement {
            EvenementPoste::Reponse(status) => apres_tentative(nb, c, status),
            EvenementPoste::EchecEnvoi => apres_tentative(nb, c, c.code),
            EvenementPoste::Confirme => (c, ActionPoste::Ignorer),
        },
        PhasePoste::Confirmation => match evenement {
            EvenementPoste::Confirme => aborder(nb, c.domaine + 1),
            _ => (c, ActionPoste::Ignorer),
        },
        PhasePoste::Termine => (c, ActionPoste::Ignorer),
    }
}

/// The post of one message to its destination domains, one domain after the
/// other.
#[derive(Debug)]
pub struct PosteMessage {
    pub uuid_message: String,
    pub destinations: Vec<DestinationPoste>,
    pub curseur: CurseurPoste,
}

impl PosteMessage {
    /// The number of endpoints of each domain.
    pub open spec fn nb(&self) -> Seq<nat> {
        Seq::new(self.destinations@.len(), |i: int| self.destinations@[i].candidats@.len())
    }

    fn aborder_domaine(&mut self, d: usize) -> (action: ActionPoste)
        ensures
            final(self).uuid_message == old(self).uuid_message,
            final(self).destinations == old(self).destinations,
            (final(self).curseur, action) == aborder(old(self).nb(), d as int),
    {
        let n: usize = self.destinations.len();
        if d >= n {
            self.curseur = CurseurPoste {
                domaine: n,
                candidat: 0,
                code: STATUS_SERVICE_INDISPONIBLE,
                phase: PhasePoste::Termine,
            };
            ActionPoste::Terminer
        } else if self.destinations[d].candidats.len() == 0 {
            self.curseur = CurseurPoste {
                domaine: d,
                candidat: 0,
                code: STATUS_SERVICE_INDISPONIBLE,
                phase: PhasePoste::Confirmation,
            };
            ActionPoste::Confirmer { domaine: d, code: STATUS_SERVICE_INDISPONIBLE }
        } else {
            self.curseur = CurseurPoste {
                domaine: d,
                candidat: 0,
                code: STATUS_SERVICE_INDISPONIBLE,
                phase: PhasePoste::Envoi,
            };
            ActionPoste::Poster { domaine: d, candidat: 0 }
        }
    }

    fn conclure_tentative(&mut self, status: u16) -> (action: ActionPoste)
        ensures
            final(self).uuid_message == old(self).uuid_message,
            final(self).destinations == old(self).destinations,
            (final(self).curseur, action) == apres_tentative(
                old(self).nb(),
                old(self).curseur,
                status,
            ),
    {
        let d: usize = self.curseur.domaine;
        let c: usize = self.curseur.candidat;
        let nombre: usize = if d < self.destinations.len() {
            self.destinations[d].candidats.len()
        } else {
            0
        };
        assert(nombre == nb_candidats(self.nb(), d as int));
        if status_succes(status) || c >= nombre || c + 1 >= nombre {
            self.curseur = CurseurPoste {
                domaine: d,
                candidat: c,
                code: status,
                phase: PhasePoste::Confirmation,
            };
            ActionPoste::Confirmer { domaine: d, code: status }
        } else {
            self.curseur = CurseurPoste {
                domaine: d,
                candidat: c + 1,
                code: status,
                phase: PhasePoste::Envoi,
            };
            ActionPoste::Poster { domaine: d, candidat: c + 1 }
        }
    }

    /// Begins the post of the message `uuid_message` to `destinations` and
    /// says what to do first.
    pub fn nouveau(uuid_message: String, destinations: Vec<DestinationPoste>) -> (r: (
        Self,
        ActionPoste,
    ))
        ensures
            r.0.uuid_message == uuid_message,
            r.0.destinations == destinations,
            (r.0.curseur, r.1) == aborder(r.0.nb(), 0),
    {
        let mut poste = PosteMessage {
            uuid_message,
            destinations,
            curseur: CurseurPoste {
                domaine: 0,
                candidat: 0,
                code: STATUS_SERVICE_INDISPONIBLE,
                phase: PhasePoste::Termine,
            },
        };
        let action = poste.aborder_domaine(0);
        (poste, action)
    }

    /// Takes in what happened and says what to do next.
    pub fn etape(&mut self, evenement: EvenementPoste) -> (action: ActionPoste)
        ensures
            final(self).uuid_message == old(self).uuid_message,
            final(self).destinations == old(self).destinations,
            (final(self).curseur, action) == suivant(old(self).nb(), old(self).curseur, evenement),
    {
        match self.curseur.phase {
            PhasePoste::Envoi => match evenement {
                EvenementPoste::Reponse(status) => self.conclure_tentative(status),
                EvenementPoste::EchecEnvoi => {
                    let code: u16 = self.curseur.code;
                    self.conclure_tentative(code)
                },
                EvenementPoste::Confirme => ActionPoste::Ignorer,
            },
            PhasePoste::Confirmation => match evenement {
                EvenementPoste::Confirme => {
                    let d: usize = self.curseur.domaine;
                    if d < self.destinations.len() {
                        self.aborder_domaine(d + 1)
                    } else {
                        let n: usize = self.destinations.len();
                        self.aborder_domaine(n)
                    }
                },
                _ => ActionPoste::Ignorer,
            },
            PhasePoste::Termine => ActionPoste::Ignorer,
        }
    }

    /// The endpoint meant by `Poster { domaine, candidat }`, if there is
    /// one.
    pub fn candidat(&self, domaine: usize, candidat: usize) -> (r: Option<&Candidat>)
        ensures
            r is Some <==> domaine < self.destinations@.len() && candidat
                < self.destinations@[domaine as int].candidats@.len(),
            r is Some ==> *r->0 == self.destinations@[domaine as int].candidats@[candidat as int],
    {
        if domaine < self.destinations.len() && candidat < self.destinations[domaine].candidats.len() {
            Some(&self.destinations[domaine].candidats[candidat])
        } else {
            None
        }
    }

    /// The confirmation meant by `Confirmer { domaine, code }`, if there is
    /// such a domain.
    pub fn confirmation(&self, domaine: usize, code: u16) -> (r: Option<ConfirmationTransmission>)
        ensures
            r is Some <==> domaine < self.destinations@.len(),
            r is Some ==> est_confirmation(
                r->0,
                self.uuid_message@,
                self.destinations@[domaine as int].idmg@,
                self.destinations@[domaine as int].destinataires@,
                code,
            ),
    {
        if domaine < self.destinations.len() {
            let destination = &self.destinations[domaine];
            Some(
                confirmer_transmission(
                    self.uuid_message.as_str(),
                    destination.idmg.as_str(),
                    &destination.destinataires,
                    code,
                ),
            )
        } else {
            None
        }
    }
}

/// Where the poster stands after the events `evenements`, from `depart`.
pub open spec fn curseur_apres(
    nb: Seq<nat>,
    depart: CurseurPoste,
    evenements: Seq<EvenementPoste>,
) -> CurseurPoste
    decreases evenements.len(),
{
    if evenements.len() == 0 {
        depart
    } else {
        suivant(nb, curseur_apres(nb, depart, evenements.drop_last()), evenements.last()).0
    }
}

/// Everything that the poster asked for, in order: `premiere` at the
/// beginning, then one action for each of `evenements`.
pub open spec fn actions_apres(
    nb: Seq<nat>,
    depart: CurseurPoste,
    premiere: ActionPoste,
    evenements: Seq<EvenementPoste>,
) -> Seq<ActionPoste>
    decreases evenements.len(),
{
    if evenements.len() == 0 {
        seq![premiere]
    } else {
        actions_apres(nb, depart, premiere, evenements.drop_last()).push(
            suivant(nb, curseur_apres(nb, depart, evenements.drop_last()), evenements.last()).1,
        )
    }
}

/// The domains for which `actions` ask a confirmation, in order.
pub open spec fn domaines_confirmes(actions: Seq<ActionPoste>) -> Seq<int>
    decreases actions.len(),
{
    if actions.len() == 0 {
        Seq::empty()
    } else {
        let avant = domaines_confirmes(actions.drop_last());
        match actions.last() {
            ActionPoste::Confirmer { domaine, code } => avant.push(domaine as int),
            _ => avant,
        }
    }
}

/// The number of domains whose confirmation has been asked for when the
/// poster stands at `c`.
pub open spec fn nb_confirmes(nb: Seq<nat>, c: CurseurPoste) -> nat {
    match c.phase {
        PhasePoste::Envoi => c.domaine as nat,
        PhasePoste::Confirmation => (c.domaine + 1) as nat,
        PhasePoste::Termine => nb.len(),
    }
}

/// Whether the poster stands at a domain and an endpoint that exist.
pub open spec fn curseur_valide(nb: Seq<nat>, c: CurseurPoste) -> bool {
    match c.phase {
        PhasePoste::Envoi => c.domaine < nb.len() && c.candidat < nb[c.domaine as int],
        PhasePoste::Confirmation => c.domaine < nb.len(),
        PhasePoste::Termine => true,
    }
}

/// Law: whatever happens, the poster asks for the confirmations of the
/// domains in their order, one for each domain and none twice; once it has
/// nothing left to do, every domain has had its confirmation.
pub proof fn loi_une_confirmation_par_domaine(nb: Seq<nat>, evenements: Seq<EvenementPoste>)
    requires
        nb.len() <= usize::MAX,
    ensures
        ({
            let depart = aborder(nb, 0);
            let fin = curseur_apres(nb, depart.0, evenements);
            let actions = actions_apres(nb, depart.0, depart.1, evenements);
            &&& curseur_valide(nb, fin)
            &&& nb_confirmes(nb, fin) <= nb.len()
            &&& domaines_confirmes(actions) == Seq::new(nb_confirmes(nb, fin), |i: int| i)
            &&& fin.phase == PhasePoste::Termine ==> domaines_confirmes(actions) == Seq::new(
                nb.len(),
                |i: int| i,
            )
        }),
    decreases evenements.len(),
{
    let depart = aborder(nb, 0);
    let fin = curseur_apres(nb, depart.0, evenements);
    let actions = actions_apres(nb, depart.0, depart.1, evenements);
    if evenements.len() == 0 {
        assert(actions.drop_last() =~= Seq::<ActionPoste>::empty());
        assert(domaines_confirmes(actions.drop_last()) =~= Seq::<int>::empty());
        assert(domaines_confirmes(actions) =~= Seq::new(nb_confirmes(nb, fin), |i: int| i));
    } else {
        let debut = evenements.drop_last();
        loi_une_confirmation_par_domaine(nb, debut);
        let avant = curseur_apres(nb, depart.0, debut);
        let actions_avant = actions_apres(nb, depart.0, depart.1, debut);
        let pas = suivant(nb, avant, evenements.last());
        assert(actions == actions_avant.push(pas.1));
        assert(actions.drop_last() =~= actions_avant);
        assert(actions.last() == pas.1);
        assert(domaines_confirmes(actions) =~= Seq::new(nb_confirmes(nb, fin), |i: int| i));
    }
}

/// The status of the last answer that an endpoint gave for the domain that
/// the poster serves after `evenements`, and 503 if none answered.
pub open spec fn dernier_statut(
    nb: Seq<nat>,
    depart: CurseurPoste,
    evenements: Seq<EvenementPoste>,
) -> u16
    decreases evenements.len(),
{
    if evenements.len() == 0 {
        STATUS_SERVICE_INDISPONIBLE
    } else {
        let debut = evenements.drop_last();
        let avant = curseur_apres(nb, depart, debut);
        match evenements.last() {
            EvenementPoste::Reponse(status) => if avant.phase == PhasePoste::Envoi {
                status
            } else {
                dernier_statut(nb, depart, debut)
            },
            EvenementPoste::Confirme => if avant.phase == PhasePoste::Confirmation {
                STATUS_SERVICE_INDISPONIBLE
            } else {
                dernier_statut(nb, depart, debut)
            },
            EvenementPoste::EchecEnvoi => dernier_statut(nb, depart, debut),
        }
    }
}

/// Law: the code of a confirmation is the status of the last answer that
/// an endpoint of the domain gave, and 503 if none answered, whether the
/// domain has no endpoint or no request to it could be sent. The poster
/// goes on to another endpoint only after a failure.
pub proof fn loi_code_confirmation(nb: Seq<nat>, evenements: Seq<EvenementPoste>)
    requires
        nb.len() <= usize::MAX,
    ensures
        ({
            let depart = aborder(nb, 0);
            let fin = curseur_apres(nb, depart.0, evenements);
            let actions = actions_apres(nb, depart.0, depart.1, evenements);
            &&& fin.code == dernier_statut(nb, depart.0, evenements)
            &&& actions.last() matches ActionPoste::Confirmer { domaine, code } ==> code
                == dernier_statut(nb, depart.0, evenements)
            &&& fin.phase == PhasePoste::Envoi ==> !est_succes(fin.code)
        }),
    decreases evenements.len(),
{
    let depart = aborder(nb, 0);
    if evenements.len() > 0 {
        loi_code_confirmation(nb, evenements.drop_last());
    }
}

} // verus!
