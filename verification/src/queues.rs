//! The queue on which the relay receives its commands.

use vstd::prelude::*;
use vstd::string::*;
use crate::constantes::{
    COMMANDE_POSTER,
    COMMANDE_POST_NOTIFICATION,
    COMMANDE_POUSSER_ATTACHMENT,
    DOMAINE_NOM,
    NOM_Q_VOLATILS,
};

verus! {

/// A queue of the bus and the routing keys bound to it.
#[derive(Clone, Debug, PartialEq, Eq)]
pub struct ConfigurationQueue {
    pub nom_queue: String,
    pub routing_keys: Vec<String>,
    pub durable: bool,
    pub autodelete: bool,
}

/// The routing key of a command of the relay.
pub open spec fn cle_routage(commande: Seq<char>) -> Seq<char> {
    "commande."@ + DOMAINE_NOM@ + "."@ + commande
}

/// Writes the routing key of a command of the relay.
pub fn routing_key_commande(commande: &str) -> (r: String)
    ensures
        r@ == cle_routage(commande@),
{
    let mut cle = String::from_str("commande.");
    cle.append(DOMAINE_NOM);
    cle.append(".");
    cle.append(commande);
    cle
}

/// The queue of the relay: durable, kept when its consumer leaves, and
/// bound to the routing keys of the three commands that the relay serves.
pub fn preparer_queues() -> (r: ConfigurationQueue)
    ensures
        r.nom_queue@ == NOM_Q_VOLATILS@,
        r.routing_keys@.len() == 3,
        r.routing_keys@[0]@ == cle_routage(COMMANDE_POSTER@),
        r.routing_keys@[1]@ == cle_routage(COMMANDE_POUSSER_ATTACHMENT@),
        r.routing_keys@[2]@ == cle_routage(COMMANDE_POST_NOTIFICATION@),
        r.durable,
        !r.autodelete,
{
    let mut routing_keys: Vec<String> = Vec::new();
    routing_keys.push(routing_key_commande(COMMANDE_POSTER));
    routing_keys.push(routing_key_commande(COMMANDE_POUSSER_ATTACHMENT));
    routing_keys.push(routing_key_commande(COMMANDE_POST_NOTIFICATION));
    ConfigurationQueue {
        nom_queue: String::from_str(NOM_Q_VOLATILS),
        routing_keys,
        durable: true,
        autodelete: false,
    }
}

} // verus!
