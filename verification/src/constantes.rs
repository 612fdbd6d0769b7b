//! Names, numeric codes and size limits shared by the whole relay.

use vstd::prelude::*;

verus! {

/// Name of this service on the message bus.
pub const DOMAINE_NOM: &'static str = "postmaster";

/// Name of the topology service.
pub const DOMAINE_TOPOLOGIE: &'static str = "CoreTopologie";

/// Name of the messaging service.
pub const DOMAINE_MESSAGERIE: &'static str = "Messagerie";

/// Request for the catalogs of third-party domains.
pub const REQUETE_APPLICATIONS_TIERS: &'static str = "applicationsTiers";

/// Command: post a message to its destinations.
pub const COMMANDE_POSTER: &'static str = "poster";

/// Command: push the pending attachments of a message.
pub const COMMANDE_POUSSER_ATTACHMENT: &'static str = "pousserAttachment";

/// Command: ask the messaging service for the next pending attachment.
pub const COMMANDE_PROCHAIN_ATTACHMENT: &'static str = "prochainAttachment";

/// Command: deliver an outgoing notification.
pub const COMMANDE_POST_NOTIFICATION: &'static str = "postNotification";

/// Command: confirm how the post of a message to a domain ended.
pub const COMMANDE_CONFIRMER_TRANSMISSION: &'static str = "confirmerTransmission";

/// Event: an attachment upload changed state.
pub const EVENEMENT_UPLOAD_ATTACHMENT: &'static str = "evenementAttachment";

/// Command: an attachment upload is complete.
pub const COMMANDE_UPLOAD_ATTACHMENT: &'static str = "uploadAttachment";

/// Queue of requests, commands and events.
pub const NOM_Q_VOLATILS: &'static str = "postmaster/volatils";

/// Queue of triggers.
pub const NOM_Q_TRIGGERS: &'static str = "postmaster/triggers";

/// Code of an upload that has just begun.
pub const CODE_UPLOAD_DEBUT: u32 = 1;

/// Code of an upload that is under way.
pub const CODE_UPLOAD_ENCOURS: u32 = 2;

/// Code of an upload that reached the remote side in full.
pub const CODE_UPLOAD_TERMINE: u32 = 3;

/// Code of an upload that failed on every destination.
pub const CODE_UPLOAD_ERREUR: u32 = 4;

/// The only content encoding accepted for a web push payload.
pub const WEBPUSH_ENCODING_AES128: &'static str = "aes128gcm";

/// The only header accepted with a web push payload.
pub const WEBPUSH_HEADER_AUTHORIZATION: &'static str = "Authorization";

/// Address of the local storage as long as the topology names no other.
pub const URL_CONSIGNATION_DEFAUT: &'static str = "https://fichiers:443";

/// Seconds allowed to connect to the local storage or to a remote domain.
pub const DELAI_CONNEXION_SECS: u64 = 30;

/// Seconds allowed to connect to an onion service.
pub const DELAI_CONNEXION_TOR_SECS: u64 = 90;

/// Size of the buffer into which the source is read.
pub const BUFFER_SIZE: u64 = 131072;

/// Size from which an attachment is sent in several parts.
pub const MESSAGE_SIZE_LIMIT: u64 = 5242880;

/// Largest number of bytes carried by one part: the size limit less one
/// read buffer.
pub const LIMITE_PART: u64 = 5111808;

/// Status reported for a domain to which no request could be made.
pub const STATUS_SERVICE_INDISPONIBLE: u16 = 503;

/// Status reported when an attachment could be uploaded nowhere.
pub const STATUS_ERREUR_UPLOAD: u16 = 500;

/// Status by which the remote side reports another resume offset.
pub const STATUS_CONFLIT: u16 = 409;

} // verus!
