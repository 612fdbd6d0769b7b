//! The settings of outgoing notifications: defaults of the SMTP settings,
//! what an e-mail needs before it can be sent, and what a web push payload
//! may hold.

use vstd::prelude::*;
use vstd::string::*;
use crate::constantes::{WEBPUSH_ENCODING_AES128, WEBPUSH_HEADER_AUTHORIZATION};
use crate::messages_struct::{
    ConfigurationNotifications,
    ConfigurationSmtp,
    ReponseConfigurationNotificationsWebpush,
};
use crate::texte::textes_egaux;

verus! {

/// SMTP port used where the settings name none.
pub const PORT_SMTP_DEFAUT: u16 = 2525;

/// The SMTP settings in use for what the messaging service gave: the server
/// is `localhost` and the port 2525 where it named none, the user name is
/// empty where it gave none, the settings are active only where it said so,
/// and the password is not known yet.
pub fn configuration_smtp(
    actif: Option<bool>,
    hostname: Option<String>,
    port: Option<u16>,
    replyto: Option<String>,
    username: Option<String>,
) -> (r: ConfigurationSmtp)
    ensures
        r.actif == (actif == Some(true)),
        r.hostname@ == (match hostname {
            Some(h) => h@,
            None => "localhost"@,
        }),
        r.port == (match port {
            Some(p) => p,
            None => PORT_SMTP_DEFAUT,
        }),
        r.replyto == replyto,
        r.username@ == (match username {
            Some(u) => u@,
            None => Seq::<char>::empty(),
        }),
        r.password is None,
{
    let actif = match actif {
        Some(a) => a,
        None => false,
    };
    let hostname = match hostname {
        Some(h) => h,
        None => String::from_str("localhost"),
    };
    let port: u16 = match port {
        Some(p) => p,
        None => PORT_SMTP_DEFAUT,
    };
    let username = match username {
        Some(u) => u,
        None => String::new(),
    };
    ConfigurationSmtp { actif, hostname, port, replyto, username, password: None }
}

/// The notification settings in use for what the messaging service gave,
/// before the SMTP settings are known.
pub fn configuration_notifications(
    email_from: Option<String>,
    intervalle_min: Option<i64>,
    webpush: Option<ReponseConfigurationNotificationsWebpush>,
    webpush_public_key: Option<String>,
) -> (r: ConfigurationNotifications)
    ensures
        r == (ConfigurationNotifications {
            email_from,
            intervalle_min,
            smtp: None,
            webpush,
            webpush_public_key,
        }),
{
    ConfigurationNotifications { email_from, intervalle_min, smtp: None, webpush, webpush_public_key }
}

/// Why an e-mail cannot be sent.
#[derive(Clone, Copy, Debug, PartialEq, Eq, Structural)]
pub enum ErreurEmail {
    /// The notification settings are not loaded.
    ConfigurationAbsente,
    /// The settings name no sender address.
    EmailFromManquant,
    /// The settings hold no SMTP server.
    SmtpAbsent,
    /// The password of the SMTP server is not known.
    MotDePasseManquant,
}

/// What the settings lack for an e-mail to be sent, if anything: the first
/// of the settings themselves, the sender address, the SMTP server and its
/// password.
pub open spec fn manque_email(configuration: Option<ConfigurationNotifications>) -> Option<
    ErreurEmail,
> {
    match configuration {
        None => Some(ErreurEmail::ConfigurationAbsente),
        Some(c) => if c.email_from is None {
            Some(ErreurEmail::EmailFromManquant)
        } else if c.smtp is None {
            Some(ErreurEmail::SmtpAbsent)
        } else if c.smtp->0.password is None {
            Some(ErreurEmail::MotDePasseManquant)
        } else {
            None
        },
    }
}

/// What the sending of an e-mail takes from the settings.
pub struct ParametresEmail<'a> {
    pub email_from: &'a String,
    pub smtp: &'a ConfigurationSmtp,
    pub password: &'a String,
}

/// Takes from the settings what the sending of an e-mail needs, or says
/// what they lack.
pub fn parametres_email<'a>(configuration: &'a Option<ConfigurationNotifications>) -> (r: Result<
    ParametresEmail<'a>,
    ErreurEmail,
>)
    ensures
        match r {
            Ok(p) => {
                &&& manque_email(*configuration) is None
                &&& *p.email_from == configuration->0.email_from->0
                &&& *p.smtp == configuration->0.smtp->0
                &&& *p.password == configuration->0.smtp->0.password->0
            },
            Err(e) => manque_email(*configuration) == Some(e),
        },
{
    let c = match configuration {
        Some(c) => c,
        None => return Err(ErreurEmail::ConfigurationAbsente),
    };
    let email_from = match &c.email_from {
        Some(e) => e,
        None => return Err(ErreurEmail::EmailFromManquant),
    };
    let smtp = match &c.smtp {
        Some(s) => s,
        None => return Err(ErreurEmail::SmtpAbsent),
    };
    let password = match &smtp.password {
        Some(p) => p,
        None => return Err(ErreurEmail::MotDePasseManquant),
    };
    Ok(ParametresEmail { email_from, smtp, password })
}

/// Tells whether a web push payload may have this content encoding: only
/// `aes128gcm` is accepted.
pub fn encodage_webpush_supporte(content_encoding: &str) -> (r: bool)
    ensures
        r == (content_encoding@ == WEBPUSH_ENCODING_AES128@),
{
    textes_egaux(content_encoding, WEBPUSH_ENCODING_AES128)
}

/// Tells whether a web push payload may come with this header: only
/// `Authorization` is accepted.
pub fn entete_webpush_supportee(nom: &str) -> (r: bool)
    ensures
        r == (nom@ == WEBPUSH_HEADER_AUTHORIZATION@),
{
    textes_egaux(nom, WEBPUSH_HEADER_AUTHORIZATION)
}

} // verus!
