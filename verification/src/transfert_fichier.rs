//! Uploading an attachment to a remote domain: in one request where its
//! declared size is under the limit, else in parts that each stay under the
//! limit, with a request that closes the upload after the last part.
//!
//! The source is read and the requests are made by the caller.
//! `TransfertFichier` decides: each `ActionTransfert` tells the caller what
//! to do next, and the caller hands back what happened as an
//! `EvenementTransfert`. The handle on the source stays with the caller; the
//! transfer keeps what is needed to go on after a part: how far the upload
//! has come and the bytes that were read and held back.

use vstd::prelude::*;
use crate::commandes::{est_succes, status_succes};
use crate::constantes::{
    LIMITE_PART,
    MESSAGE_SIZE_LIMIT,
    STATUS_CONFLIT,
    STATUS_ERREUR_UPLOAD,
};
use crate::destinations::{candidats_de, candidats_domaine, Candidat};
use crate::messages_struct::{
    EvenementUploadAttachment,
    FicheMillegrilleApplication,
    ResponsePutFichierPartiel,
};
use crate::texte::{entier_decimal, lire_entier};

verus! {

/// How far an upload in parts has come.
#[derive(Debug, PartialEq, Eq)]
pub struct StreamState {
    /// Number of bytes handed to the remote side so far: what it has
    /// accepted, and what the part under way holds.
    pub position: u64,
    /// Bytes read from the source and held back, because with them the part
    /// under way would have passed the limit. They open the next part.
    pub chunk_overlap: Option<Vec<u8>>,
}

/// What the transfer is waiting for.
#[derive(Clone, Copy, Debug, PartialEq, Eq, Structural)]
pub enum PhaseTransfert {
    /// The opening of the source.
    Ouverture,
    /// The answer to the request that carries the whole source.
    Simple,
    /// The next bytes of the source, while a part is under way.
    Lecture,
    /// The answer to a part whose body is complete.
    AttenteReponse,
    /// The answer to the request that closes the upload.
    Finalisation,
    /// Nothing: the upload has ended.
    Termine,
}

/// What happened to the last thing that the transfer asked for.
#[derive(Debug, PartialEq, Eq)]
pub enum EvenementTransfert {
    /// The local storage serves the attachment; `content_length` is the
    /// value of that header, if it sent one.
    SourceOuverte { content_length: Option<Vec<u8>> },
    /// The local storage does not serve the attachment.
    SourceIndisponible,
    /// A read of the source returned these bytes.
    Chunk(Vec<u8>),
    /// A read of the source found its end.
    FinSource,
    /// A read of the source failed.
    ErreurLecture,
    /// The remote side answered: the HTTP status, the value of the header
    /// `x-position` if it sent one, and the acknowledgement if the body held
    /// one that could be read.
    Reponse { status: u16, x_position: Option<Vec<u8>>, ack: Option<ResponsePutFichierPartiel> },
    /// The request could not be sent or got no answer.
    EchecEnvoi,
}

/// What the transfer asks of its caller.
#[derive(Debug, PartialEq, Eq)]
pub enum ActionTransfert {
    /// Ask the local storage for the attachment from byte `debut` on.
    OuvrirSource { debut: u64 },
    /// Send the whole source to this endpoint in one request.
    EnvoyerSimple { candidat: usize },
    /// Begin the request for the part at `position` on this endpoint, write
    /// `premier` to its body if there is one, then read the source.
    DebuterPart { candidat: usize, position: u64, premier: Option<Vec<u8>> },
    /// Write these bytes to the body of the part, then read the source.
    Ecrire(Vec<u8>),
    /// End the body of the part and wait for the answer.
    FinirPart,
    /// Send to this endpoint the request that closes the upload.
    Finaliser { candidat: usize },
    /// The upload succeeded: send this confirmation. Nothing follows.
    Complete(EvenementUploadAttachment),
    /// The upload failed: emit this event and give up whatever request is
    /// under way. Nothing follows.
    Erreur(EvenementUploadAttachment),
    /// The event was not awaited: go on waiting for the one that is.
    Ignorer,
}

impl ActionTransfert {
    /// Whether this action ends the upload.
    pub open spec fn est_terminale(self) -> bool {
        self is Complete || self is Erreur
    }
}

/// The size that the local storage declares, where the header holds one.
pub open spec fn taille_declaree(content_length: Option<Vec<u8>>) -> Option<u64> {
    match content_length {
        Some(valeur) => entier_decimal(valeur@),
        None => None,
    }
}

/// Whether an attachment of this declared size goes in parts: it does
/// unless the size is known and under the limit.
pub open spec fn upload_en_parts(taille: Option<u64>) -> bool {
    match taille {
        Some(t) => t >= MESSAGE_SIZE_LIMIT,
        None => true,
    }
}

/// Tells whether an attachment of this declared size goes in parts.
pub fn upload_split_requis(taille: Option<u64>) -> (r: bool)
    ensures
        r == upload_en_parts(taille),
{
    match taille {
        Some(t) => t >= MESSAGE_SIZE_LIMIT,
        None => true,
    }
}

/// The number of bytes of a chunk that may be absent.
pub open spec fn longueur(chunk: Option<Vec<u8>>) -> nat {
    match chunk {
        Some(octets) => octets@.len(),
        None => 0,
    }
}

/// The resume offset that an answer reports: that of the header
/// `x-position` of an answer with the status 409, where it holds a number.
pub open spec fn position_reprise(status: u16, x_position: Option<Vec<u8>>) -> Option<u64> {
    if status == STATUS_CONFLIT {
        taille_declaree(x_position)
    } else {
        None
    }
}

/// Tells whether what a refused request left on the remote side is to be
/// removed: it is, unless the request succeeded or the answer reports where
/// to resume.
pub fn nettoyage_requis(status: u16, x_position: &Option<Vec<u8>>) -> (r: bool)
    ensures
        r == (!est_succes(status) && position_reprise(status, *x_position) is None),
{
    if status_succes(status) {
        false
    } else if status == STATUS_CONFLIT {
        match x_position {
            Some(valeur) => lire_entier(valeur.as_slice()).is_none(),
            None => true,
        }
    } else {
        true
    }
}

/// Status of an answer that holds the part of a content asked for.
pub const STATUS_CONTENU_PARTIEL: u16 = 206;

/// Whether the local storage serves the attachment from byte `debut` on
/// when it answers with `status`: with a success, and with no other than
/// 206 where `debut` is not the beginning.
pub open spec fn source_servie(debut: u64, status: u16) -> bool {
    est_succes(status) && (debut == 0 || status == STATUS_CONTENU_PARTIEL)
}

/// Tells whether the local storage serves the attachment from byte `debut`
/// on when it answers with `status`.
pub fn source_acceptee(debut: u64, status: u16) -> (r: bool)
    ensures
        r == source_servie(debut, status),
{
    status_succes(status) && (debut == 0 || status == STATUS_CONTENU_PARTIEL)
}

/// Whether an answer to the closing request says that the remote side holds
/// the whole attachment.
pub open spec fn finalisation_acceptee(status: u16, ack: Option<ResponsePutFichierPartiel>) -> bool {
    est_succes(status) && ack is Some && ack->0.ok
}

/// The upload of one attachment to one remote domain.
#[derive(Debug)]
pub struct TransfertFichier {
    pub uuid_message: String,
    pub idmg: String,
    pub fuuid: String,
    /// The endpoints to try, in order.
    pub candidats: Vec<Candidat>,
    /// The endpoint that is being tried.
    pub candidat: usize,
    pub phase: PhaseTransfert,
    pub flux: StreamState,
    /// Number of bytes that the part under way holds.
    pub compteur: u64,
    /// Whether the source has been read to its end.
    pub source_epuisee: bool,
    /// Whether the source was last opened to resume the upload in parts
    /// where the remote side said.
    pub reprise: bool,
}

impl TransfertFichier {
    /// The event that announces the upload.
    pub open spec fn evenement_debut(self) -> EvenementUploadAttachment {
        EvenementUploadAttachment {
            uuid_message: self.uuid_message,
            idmg: self.idmg,
            fuuid: self.fuuid,
            code: crate::constantes::CODE_UPLOAD_DEBUT,
            http_status: None,
            retry_after: None,
            complete: false,
        }
    }

    /// The event of a successful upload that the remote side accepted with
    /// `status`.
    pub open spec fn evenement_complete(self, status: u16) -> EvenementUploadAttachment {
        EvenementUploadAttachment {
            uuid_message: self.uuid_message,
            idmg: self.idmg,
            fuuid: self.fuuid,
            code: crate::constantes::CODE_UPLOAD_TERMINE,
            http_status: Some(status),
            retry_after: None,
            complete: true,
        }
    }

    /// The event of a failed upload, with the status 500.
    pub open spec fn evenement_erreur(self) -> EvenementUploadAttachment {
        EvenementUploadAttachment {
            uuid_message: self.uuid_message,
            idmg: self.idmg,
            fuuid: self.fuuid,
            code: crate::constantes::CODE_UPLOAD_ERREUR,
            http_status: Some(STATUS_ERREUR_UPLOAD),
            retry_after: None,
            complete: false,
        }
    }

    /// The upload ends in failure.
    pub open spec fn abandonner(self) -> (Self, ActionTransfert) {
        (
            TransfertFichier { phase: PhaseTransfert::Termine, ..self },
            ActionTransfert::Erreur(self.evenement_erreur()),
        )
    }

    /// The upload ends in success with `status`.
    pub open spec fn reussir(self, status: u16) -> (Self, ActionTransfert) {
        (
            TransfertFichier { phase: PhaseTransfert::Termine, ..self },
            ActionTransfert::Complete(self.evenement_complete(status)),
        )
    }

    /// The source is opened anew from byte `debut` for the endpoint
    /// `candidat`, to resume an upload in parts if `reprise` says so.
    pub open spec fn rouvrir(self, candidat: usize, debut: u64, reprise: bool) -> (
        Self,
        ActionTransfert,
    ) {
        (
            TransfertFichier {
                candidat,
                phase: PhaseTransfert::Ouverture,
                flux: StreamState { position: debut, chunk_overlap: None },
                compteur: 0,
                source_epuisee: false,
                reprise,
                ..self
            },
            ActionTransfert::OuvrirSource { debut },
        )
    }

    /// The endpoint under trial failed: the next one is tried from the
    /// beginning of the attachment, and the upload fails if there is none.
    pub open spec fn candidat_suivant(self) -> (Self, ActionTransfert) {
        if self.candidat + 1 < self.candidats@.len() {
            self.rouvrir((self.candidat + 1) as usize, 0, false)
        } else {
            self.abandonner()
        }
    }

    /// A part begins where the upload stands; the bytes held back, if any,
    /// open it.
    pub open spec fn debuter_part(self) -> (Self, ActionTransfert) {
        let premier = self.flux.chunk_overlap;
        if self.flux.position + longueur(premier) > u64::MAX {
            self.abandonner()
        } else {
            (
                TransfertFichier {
                    phase: PhaseTransfert::Lecture,
                    flux: StreamState {
                        position: (self.flux.position + longueur(premier)) as u64,
                        chunk_overlap: None,
                    },
                    compteur: longueur(premier) as u64,
                    source_epuisee: false,
                    ..self
                },
                ActionTransfert::DebuterPart {
                    candidat: self.candidat,
                    position: self.flux.position,
                    premier,
                },
            )
        }
    }

    /// Bytes were read while a part is under way: they go into the part
    /// whole if it stays within its limit with them; if not, they are held
    /// back whole and the part ends. A read that no part can hold, or one
    /// that takes the count of bytes past what a `u64` holds, fails the
    /// upload.
    pub open spec fn recevoir_chunk(self, octets: Vec<u8>) -> (Self, ActionTransfert) {
        if octets@.len() > LIMITE_PART || self.flux.position + octets@.len() > u64::MAX {
            self.abandonner()
        } else if self.compteur + octets@.len() <= LIMITE_PART {
            (
                TransfertFichier {
                    flux: StreamState {
                        position: (self.flux.position + octets@.len()) as u64,
                        chunk_overlap: self.flux.chunk_overlap,
                    },
                    compteur: (self.compteur + octets@.len()) as u64,
                    ..self
                },
                ActionTransfert::Ecrire(octets),
            )
        } else {
            (
                TransfertFichier {
                    phase: PhaseTransfert::AttenteReponse,
                    flux: StreamState {
                        position: self.flux.position,
                        chunk_overlap: Some(octets),
                    },
                    ..self
                },
                ActionTransfert::FinirPart,
            )
        }
    }

    /// The remote side answered to a part, complete or not: an answer that
    /// reports a resume offset has the source opened anew from there, and
    /// the upload goes on in parts from this offset, whatever it is; a
    /// success for a complete part leads to the next part, or to the closing
    /// request when the source is at its end; anything else fails the
    /// endpoint.
    pub open spec fn recevoir_reponse_part(
        self,
        status: u16,
        x_position: Option<Vec<u8>>,
    ) -> (Self, ActionTransfert) {
        match position_reprise(status, x_position) {
            Some(p) => self.rouvrir(self.candidat, p, true),
            None => if self.phase == PhaseTransfert::AttenteReponse && est_succes(status) {
                if self.source_epuisee {
                    (
                        TransfertFichier { phase: PhaseTransfert::Finalisation, ..self },
                        ActionTransfert::Finaliser { candidat: self.candidat },
                    )
                } else {
                    self.debuter_part()
                }
            } else {
                self.candidat_suivant()
            },
        }
    }

    /// The step of the transfer: where it stands and what it asks for once
    /// `evenement` has happened.
    pub open spec fn suivant(self, evenement: EvenementTransfert) -> (Self, ActionTransfert) {
        match self.phase {
            PhaseTransfert::Ouverture => match evenement {
                EvenementTransfert::SourceOuverte { content_length } => {
                    if !self.reprise && self.flux.position == 0 && !upload_en_parts(
                        taille_declaree(content_length),
                    ) {
                        (
                            TransfertFichier { phase: PhaseTransfert::Simple, ..self },
                            ActionTransfert::EnvoyerSimple { candidat: self.candidat },
                        )
                    } else {
                        self.debuter_part()
                    }
                },
                EvenementTransfert::SourceIndisponible => self.abandonner(),
                _ => (self, ActionTransfert::Ignorer),
            },
            PhaseTransfert::Simple => match evenement {
                EvenementTransfert::Reponse { status, x_position, ack } => if est_succes(status) {
                    self.reussir(status)
                } else {
                    self.candidat_suivant()
                },
                EvenementTransfert::EchecEnvoi => self.candidat_suivant(),
                _ => (self, ActionTransfert::Ignorer),
            },
            PhaseTransfert::Lecture => match evenement {
                EvenementTransfert::Chunk(octets) => self.recevoir_chunk(octets),
                EvenementTransfert::FinSource => (
                    TransfertFichier {
                        phase: PhaseTransfert::AttenteReponse,
                        source_epuisee: true,
                        ..self
                    },
                    ActionTransfert::FinirPart,
                ),
                EvenementTransfert::ErreurLecture => self.abandonner(),
                EvenementTransfert::Reponse { status, x_position, ack } => self.recevoir_reponse_part(
                    status,
                    x_position,
                ),
                EvenementTransfert::EchecEnvoi => self.candidat_suivant(),
                _ => (self, ActionTransfert::Ignorer),
            },
            PhaseTransfert::AttenteReponse => match evenement {
                EvenementTransfert::Reponse { status, x_position, ack } => self.recevoir_reponse_part(
                    status,
                    x_position,
                ),
                EvenementTransfert::EchecEnvoi => self.candidat_suivant(),
                _ => (self, ActionTransfert::Ignorer),
            },
            PhaseTransfert::Finalisation => match evenement {
                EvenementTransfert::Reponse { status, x_position, ack } => if finalisation_acceptee(
                    status,
                    ack,
                ) {
                    self.reussir(status)
                } else {
                    self.candidat_suivant()
                },
                EvenementTransfert::EchecEnvoi => self.candidat_suivant(),
                _ => (self, ActionTransfert::Ignorer),
            },
            PhaseTransfert::Termine => (self, ActionTransfert::Ignorer),
        }
    }

    /// The beginning of an upload to the endpoints `candidats`: the source
    /// is opened for the first of them, and the upload fails at once if
    /// there is none.
    pub open spec fn depart(
        uuid_message: String,
        idmg: String,
        fuuid: String,
        candidats: Vec<Candidat>,
    ) -> (Self, ActionTransfert) {
        let transfert = TransfertFichier {
            uuid_message,
            idmg,
            fuuid,
            candidats,
            candidat: 0,
            phase: PhaseTransfert::Ouverture,
            flux: StreamState { position: 0, chunk_overlap: None },
            compteur: 0,
            source_epuisee: false,
            reprise: false,
        };
        if candidats@.len() == 0 {
            transfert.abandonner()
        } else {
            (transfert, ActionTransfert::OuvrirSource { debut: 0 })
        }
    }

    fn echouer(&mut self) -> (action: ActionTransfert)
        ensures
            (*final(self), action) == old(self).abandonner(),
    {
        self.phase = PhaseTransfert::Termine;
        ActionTransfert::Erreur(
            EvenementUploadAttachment::erreur(
                self.uuid_message.clone(),
                self.idmg.clone(),
                self.fuuid.clone(),
                STATUS_ERREUR_UPLOAD,
            ),
        )
    }

    fn completer(&mut self, status: u16) -> (action: ActionTransfert)
        ensures
            (*final(self), action) == old(self).reussir(status),
    {
        self.phase = PhaseTransfert::Termine;
        ActionTransfert::Complete(
            EvenementUploadAttachment::complete(
                self.uuid_message.clone(),
                self.idmg.clone(),
                self.fuuid.clone(),
                status,
            ),
        )
    }

    fn ouvrir(&mut self, candidat: usize, debut: u64, reprise: bool) -> (action: ActionTransfert)
        ensures
            (*final(self), action) == old(self).rouvrir(candidat, debut, reprise),
    {
        self.candidat = candidat;
        self.phase = PhaseTransfert::Ouverture;
        self.flux = StreamState { position: debut, chunk_overlap: None };
        self.compteur = 0;
        self.source_epuisee = false;
        self.reprise = reprise;
        ActionTransfert::OuvrirSource { debut }
    }

    fn passer_au_suivant(&mut self) -> (action: ActionTransfert)
        ensures
            (*final(self), action) == old(self).candidat_suivant(),
    {
        let n: usize = self.candidats.len();
        if self.candidat < n && self.candidat + 1 < n {
            let prochain: usize = self.candidat + 1;
            self.ouvrir(prochain, 0, false)
        } else {
            self.echouer()
        }
    }

    fn commencer_part(&mut self) -> (action: ActionTransfert)
        ensures
            (*final(self), action) == old(self).debuter_part(),
    {
        let taille: usize = match &self.flux.chunk_overlap {
            Some(octets) => octets.len(),
            None => 0,
        };
        let position: u64 = self.flux.position;
        if taille as u64 > u64::MAX - position {
            return self.echouer();
        }
        let premier = self.flux.chunk_overlap.take();
        self.phase = PhaseTransfert::Lecture;
        self.flux.position = position + taille as u64;
        self.compteur = taille as u64;
        self.source_epuisee = false;
        ActionTransfert::DebuterPart { candidat: self.candidat, position, premier }
    }

    fn traiter_chunk(&mut self, octets: Vec<u8>) -> (action: ActionTransfert)
        ensures
            (*final(self), action) == old(self).recevoir_chunk(octets),
    {
        let taille: usize = octets.len();
        if taille as u64 > LIMITE_PART || taille as u64 > u64::MAX - self.flux.position {
            return self.echouer();
        }
        if self.compteur <= LIMITE_PART - taille as u64 {
            self.flux.position = self.flux.position + taille as u64;
            self.compteur = self.compteur + taille as u64;
            ActionTransfert::Ecrire(octets)
        } else {
            self.phase = PhaseTransfert::AttenteReponse;
            self.flux.chunk_overlap = Some(octets);
            ActionTransfert::FinirPart
        }
    }

    fn traiter_reponse_part(&mut self, status: u16, x_position: Option<Vec<u8>>) -> (action:
        ActionTransfert)
        ensures
            (*final(self), action) == old(self).recevoir_reponse_part(status, x_position),
    {
        let reprise: Option<u64> = if status == STATUS_CONFLIT {
            match &x_position {
                Some(valeur) => lire_entier(valeur.as_slice()),
                None => None,
            }
        } else {
            None
        };
        match reprise {
            Some(p) => {
                let candidat: usize = self.candidat;
                self.ouvrir(candidat, p, true)
            },
            None => {
                let attendue = match self.phase {
                    PhaseTransfert::AttenteReponse => true,
                    _ => false,
                };
                if attendue && status_succes(status) {
                    if self.source_epuisee {
                        self.phase = PhaseTransfert::Finalisation;
                        ActionTransfert::Finaliser { candidat: self.candidat }
                    } else {
                        self.commencer_part()
                    }
                } else {
                    self.passer_au_suivant()
                }
            },
        }
    }

    /// Takes in what happened and says what to do next.
    pub fn etape(&mut self, evenement: EvenementTransfert) -> (action: ActionTransfert)
        ensures
            (*final(self), action) == old(self).suivant(evenement),
    {
        match self.phase {
            PhaseTransfert::Ouverture => match evenement {
                EvenementTransfert::SourceOuverte { content_length } => {
                    let taille: Option<u64> = match &content_length {
                        Some(valeur) => lire_entier(valeur.as_slice()),
                        None => None,
                    };
                    if !self.reprise && self.flux.position == 0 && !upload_split_requis(taille) {
                        self.phase = PhaseTransfert::Simple;
                        ActionTransfert::EnvoyerSimple { candidat: self.candidat }
                    } else {
                        self.commencer_part()
                    }
                },
                EvenementTransfert::SourceIndisponible => self.echouer(),
                _ => ActionTransfert::Ignorer,
            },
            PhaseTransfert::Simple => match evenement {
                EvenementTransfert::Reponse { status, x_position, ack } => {
                    if status_succes(status) {
                        self.completer(status)
                    } else {
                        self.passer_au_suivant()
                    }
                },
                EvenementTransfert::EchecEnvoi => self.passer_au_suivant(),
                _ => ActionTransfert::Ignorer,
            },
            PhaseTransfert::Lecture => match evenement {
                EvenementTransfert::Chunk(octets) => self.traiter_chunk(octets),
                EvenementTransfert::FinSource => {
                    self.phase = PhaseTransfert::AttenteReponse;
                    self.source_epuisee = true;
                    ActionTransfert::FinirPart
                },
                EvenementTransfert::ErreurLecture => self.echouer(),
                EvenementTransfert::Reponse { status, x_position, ack } => {
                    self.traiter_reponse_part(status, x_position)
                },
                EvenementTransfert::EchecEnvoi => self.passer_au_suivant(),
                _ => ActionTransfert::Ignorer,
            },
            PhaseTransfert::AttenteReponse => match evenement {
                EvenementTransfert::Reponse { status, x_position, ack } => {
                    self.traiter_reponse_part(status, x_position)
                },
                EvenementTransfert::EchecEnvoi => self.passer_au_suivant(),
                _ => ActionTransfert::Ignorer,
            },
            PhaseTransfert::Finalisation => match evenement {
                EvenementTransfert::Reponse { status, x_position, ack } => {
                    let acceptee = status_succes(status) && match &ack {
                        Some(a) => a.ok,
                        None => false,
                    };
                    if acceptee {
                        self.completer(status)
                    } else {
                        self.passer_au_suivant()
                    }
                },
                EvenementTransfert::EchecEnvoi => self.passer_au_suivant(),
                _ => ActionTransfert::Ignorer,
            },
            PhaseTransfert::Termine => ActionTransfert::Ignorer,
        }
    }
}

/// Begins the upload of the attachment `fuuid` of the message
/// `uuid_message` to the domain of `fiche`. Returns the transfer, the event
/// that announces the upload, to be emitted before anything else, and what
/// to do first.
pub fn uploader_attachment(
    fiche: &FicheMillegrilleApplication,
    fuuid: &String,
    uuid_message: &String,
    tor_disponible: bool,
    remote_disponible: bool,
) -> (r: (TransfertFichier, EvenementUploadAttachment, ActionTransfert))
    ensures
        r.0.candidats@ == candidats_de(fiche.application@, tor_disponible, remote_disponible),
        (r.0, r.2) == TransfertFichier::depart(*uuid_message, fiche.idmg, *fuuid, r.0.candidats),
        r.1 == r.0.evenement_debut(),
{
    let candidats = candidats_domaine(fiche, tor_disponible, remote_disponible);
    let debut = EvenementUploadAttachment::nouveau(
        uuid_message.clone(),
        fiche.idmg.clone(),
        fuuid.clone(),
    );
    let mut transfert = TransfertFichier {
        uuid_message: uuid_message.clone(),
        idmg: fiche.idmg.clone(),
        fuuid: fuuid.clone(),
        candidats,
        candidat: 0,
        phase: PhaseTransfert::Ouverture,
        flux: StreamState { position: 0, chunk_overlap: None },
        compteur: 0,
        source_epuisee: false,
        reprise: false,
    };
    if transfert.candidats.len() == 0 {
        let action = transfert.echouer();
        (transfert, debut, action)
    } else {
        (transfert, debut, ActionTransfert::OuvrirSource { debut: 0 })
    }
}

} // verus!
