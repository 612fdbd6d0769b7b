//! The messages exchanged with the bus and with remote relays.

use std::collections::HashMap;
use vstd::prelude::*;
use crate::constantes::{CODE_UPLOAD_DEBUT, CODE_UPLOAD_ERREUR, CODE_UPLOAD_TERMINE};

verus! {

/// Where the recipients of one remote domain are to be reached.
#[derive(Clone, Debug, PartialEq, Eq)]
pub struct IdmgMappingDestinataires {
    pub idmg: String,
    pub mapping: DocMappingIdmg,
    pub destinataires: Vec<String>,
    pub fiche: FicheMillegrilleApplication,
    pub cles: HashMap<String, String>,
}

/// Delivery hints kept for a remote domain.
#[derive(Clone, Debug, PartialEq, Eq)]
pub struct DocMappingIdmg {
    pub dns: Option<Vec<String>>,
    pub retry: Option<u32>,
}

/// Answer of the topology service: the catalogs of the domains asked for.
#[derive(Clone, Debug, PartialEq, Eq)]
pub struct ReponseFichesApplication {
    pub fiches: Vec<FicheMillegrilleApplication>,
}

/// The catalog that a remote domain publishes: its endpoints, in the order
/// in which it lists them.
#[derive(Clone, Debug, PartialEq, Eq)]
pub struct FicheMillegrilleApplication {
    pub idmg: String,
    pub adresses: Vec<String>,
    pub application: Vec<FicheApplication>,
    pub ca: Option<String>,
    pub chiffrage: Option<Vec<Vec<String>>>,
}

/// One reachable endpoint of a remote domain.
#[derive(Clone, Debug, PartialEq, Eq)]
pub struct FicheApplication {
    pub application: String,
    pub url: String,
    pub version: Option<String>,
}

/// How the post of a message to one domain ended.
#[derive(Clone, Debug, PartialEq, Eq)]
pub struct ConfirmationTransmission {
    pub uuid_message: String,
    pub idmg: String,
    pub destinataires: Vec<ConfirmationTransmissionDestinataire>,
    pub code: u16,
}

/// How the post ended for one recipient.
#[derive(Clone, Debug, PartialEq, Eq)]
pub struct ConfirmationTransmissionDestinataire {
    pub destinataire: String,
    pub code: u32,
}

/// Command to push the pending attachments of a message to a domain.
#[derive(Clone, Debug, PartialEq, Eq)]
pub struct CommandePousserAttachments {
    pub uuid_message: String,
    pub idmg_destination: String,
}

/// Request for the catalog of an application on some domains.
#[derive(Clone, Debug, PartialEq, Eq)]
pub struct RequeteTopologieFicheApplication {
    pub idmgs: Vec<String>,
    pub application: String,
}

/// Answer of the messaging service: the next attachment to push, if any.
#[derive(Clone, Debug, PartialEq, Eq)]
pub struct ReponseProchainAttachment {
    pub fuuid: Option<String>,
    pub ok: bool,
}

/// A step in the life of an attachment upload.
#[derive(Clone, Debug, PartialEq, Eq)]
pub struct EvenementUploadAttachment {
    pub uuid_message: String,
    pub idmg: String,
    pub fuuid: String,
    pub code: u32,
    pub http_status: Option<u16>,
    pub retry_after: Option<u32>,
    pub complete: bool,
}

impl EvenementUploadAttachment {
    /// The event that announces an upload before any network access.
    pub fn nouveau(uuid_message: String, idmg: String, fuuid: String) -> (r: Self)
        ensures
            r == (EvenementUploadAttachment {
                uuid_message,
                idmg,
                fuuid,
                code: CODE_UPLOAD_DEBUT,
                http_status: None,
                retry_after: None,
                complete: false,
            }),
    {
        EvenementUploadAttachment {
            uuid_message,
            idmg,
            fuuid,
            code: CODE_UPLOAD_DEBUT,
            http_status: None,
            retry_after: None,
            complete: false,
        }
    }

    /// The event that closes an upload accepted with `http_status`.
    pub fn complete(uuid_message: String, idmg: String, fuuid: String, http_status: u16) -> (r:
        Self)
        ensures
            r == (EvenementUploadAttachment {
                uuid_message,
                idmg,
                fuuid,
                code: CODE_UPLOAD_TERMINE,
                http_status: Some(http_status),
                retry_after: None,
                complete: true,
            }),
    {
        EvenementUploadAttachment {
            uuid_message,
            idmg,
            fuuid,
            code: CODE_UPLOAD_TERMINE,
            http_status: Some(http_status),
            retry_after: None,
            complete: true,
        }
    }

    /// The event that closes an upload that failed with `http_status`.
    pub fn erreur(uuid_message: String, idmg: String, fuuid: String, http_status: u16) -> (r: Self)
        ensures
            r == (EvenementUploadAttachment {
                uuid_message,
                idmg,
                fuuid,
                code: CODE_UPLOAD_ERREUR,
                http_status: Some(http_status),
                retry_after: None,
                complete: false,
            }),
    {
        EvenementUploadAttachment {
            uuid_message,
            idmg,
            fuuid,
            code: CODE_UPLOAD_ERREUR,
            http_status: Some(http_status),
            retry_after: None,
            complete: false,
        }
    }
}

/// Acknowledgement that a remote relay returns for a part or for the whole
/// of an attachment.
#[derive(Clone, Debug, PartialEq, Eq)]
pub struct ResponsePutFichierPartiel {
    pub ok: bool,
    pub code: Option<u32>,
    pub status: Option<usize>,
    pub err: Option<String>,
}

/// Web push settings as the messaging service gives them.
#[derive(Clone, Debug, PartialEq, Eq)]
pub struct ReponseConfigurationNotificationsWebpush {
    pub actif: Option<bool>,
    pub icon: Option<String>,
}

/// SMTP settings in use.
#[derive(Clone, Debug, PartialEq, Eq)]
pub struct ConfigurationSmtp {
    pub actif: bool,
    pub hostname: String,
    pub port: u16,
    pub replyto: Option<String>,
    pub username: String,
    pub password: Option<String>,
}

/// Notification settings in use.
#[derive(Clone, Debug, PartialEq, Eq)]
pub struct ConfigurationNotifications {
    pub email_from: Option<String>,
    pub intervalle_min: Option<i64>,
    pub smtp: Option<ConfigurationSmtp>,
    pub webpush: Option<ReponseConfigurationNotificationsWebpush>,
    pub webpush_public_key: Option<String>,
}

/// Encrypted body of a web push notification.
#[derive(Clone, Debug, PartialEq, Eq)]
pub struct PostmasterWebPushPayload {
    pub content: String,
    pub crypto_headers: HashMap<String, String>,
    pub content_encoding: String,
}

/// A web push notification for one subscription.
#[derive(Clone, Debug, PartialEq, Eq)]
pub struct PostmasterWebPushMessage {
    pub endpoint: String,
    pub ttl: u32,
    pub payload: Option<PostmasterWebPushPayload>,
}

/// A notification to send by e-mail.
#[derive(Clone, Debug, PartialEq, Eq)]
pub struct EmailNotification {
    pub address: String,
    pub title: String,
    pub body: String,
}

/// The notifications to deliver to one user.
#[derive(Clone, Debug, PartialEq, Eq)]
pub struct NotificationOutgoingPostmaster {
    pub user_id: String,
    pub email: Option<EmailNotification>,
    pub webpush: Option<Vec<PostmasterWebPushMessage>>,
}

} // verus!
