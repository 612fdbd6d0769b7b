//! Which messages of the bus the relay accepts, and which command a message
//! asks for.

use vstd::prelude::*;
use crate::constantes::{COMMANDE_POSTER, COMMANDE_POST_NOTIFICATION, COMMANDE_POUSSER_ATTACHMENT};
use crate::texte::textes_egaux;

verus! {

/// What the certificate of a message says of its sender.
#[derive(Clone, Copy, Debug, PartialEq, Eq, Structural)]
pub struct Emetteur {
    /// The sender holds the role of a private account.
    pub role_prive: bool,
    /// The certificate names a user.
    pub user_id_present: bool,
    /// The certificate belongs to one of the exchanges accepted for this
    /// kind of message.
    pub exchange_reconnu: bool,
    /// The certificate holds the delegation of the owner.
    pub delegation_globale: bool,
}

/// Whether a command or a request of this sender is accepted: that of a
/// user with a private account, of a service on an accepted exchange, or of
/// the owner.
pub open spec fn est_autorise(emetteur: Emetteur) -> bool {
    (emetteur.role_prive && emetteur.user_id_present) || emetteur.exchange_reconnu
        || emetteur.delegation_globale
}

/// Tells whether a command or a request of this sender is accepted.
pub fn message_autorise(emetteur: Emetteur) -> (r: bool)
    ensures
        r == est_autorise(emetteur),
{
    if emetteur.role_prive && emetteur.user_id_present {
        true
    } else if emetteur.exchange_reconnu {
        true
    } else {
        emetteur.delegation_globale
    }
}

/// The commands that the relay serves.
#[derive(Clone, Copy, Debug, PartialEq, Eq, Structural)]
pub enum TypeCommande {
    /// Post a message to its destinations.
    Poster,
    /// Push the pending attachments of a message.
    PousserAttachment,
    /// Deliver an outgoing notification.
    PostNotification,
}

/// The command that an action names, if it names one.
pub open spec fn commande_nommee(action: Seq<char>) -> Option<TypeCommande> {
    if action == COMMANDE_POSTER@ {
        Some(TypeCommande::Poster)
    } else if action == COMMANDE_POUSSER_ATTACHMENT@ {
        Some(TypeCommande::PousserAttachment)
    } else if action == COMMANDE_POST_NOTIFICATION@ {
        Some(TypeCommande::PostNotification)
    } else {
        None
    }
}

/// Finds the command that `action` names.
pub fn type_commande(action: &str) -> (r: Option<TypeCommande>)
    ensures
        r == commande_nommee(action@),
{
    if textes_egaux(action, COMMANDE_POSTER) {
        Some(TypeCommande::Poster)
    } else if textes_egaux(action, COMMANDE_POUSSER_ATTACHMENT) {
        Some(TypeCommande::PousserAttachment)
    } else if textes_egaux(action, COMMANDE_POST_NOTIFICATION) {
        Some(TypeCommande::PostNotification)
    } else {
        None
    }
}

} // verus!
