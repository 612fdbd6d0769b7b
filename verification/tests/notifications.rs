use postmaster::autorisation::{message_autorise, type_commande, Emetteur, TypeCommande};
use postmaster::messages_struct::{ConfigurationNotifications, ConfigurationSmtp};
use postmaster::notifications::{
    configuration_notifications, configuration_smtp, encodage_webpush_supporte, entete_webpush_supportee,
    parametres_email, ErreurEmail,
};

#[test]
fn smtp_defaults() {
    let c = configuration_smtp(None, None, None, None, None);
    assert_eq!(
        c,
        ConfigurationSmtp {
            actif: false,
            hostname: "localhost".to_string(),
            port: 2525,
            replyto: None,
            username: String::new(),
            password: None,
        }
    );
    let c = configuration_smtp(
        Some(true),
        Some("smtp.exemple.com".to_string()),
        Some(587),
        Some("non@exemple.com".to_string()),
        Some("relais".to_string()),
    );
    assert_eq!(
        c,
        ConfigurationSmtp {
            actif: true,
            hostname: "smtp.exemple.com".to_string(),
            port: 587,
            replyto: Some("non@exemple.com".to_string()),
            username: "relais".to_string(),
            password: None,
        }
    );
    assert!(!configuration_smtp(Some(false), None, None, None, None).actif);
}

fn smtp(password: Option<&str>) -> ConfigurationSmtp {
    ConfigurationSmtp {
        actif: true,
        hostname: "smtp.exemple.com".to_string(),
        port: 587,
        replyto: None,
        username: "relais".to_string(),
        password: password.map(|p| p.to_string()),
    }
}

#[test]
fn email_needs_complete_settings() {
    assert_eq!(parametres_email(&None).err(), Some(ErreurEmail::ConfigurationAbsente));
    let mut c = configuration_notifications(None, Some(5), None, Some("cle".to_string()));
    assert_eq!(
        c,
        ConfigurationNotifications {
            email_from: None,
            intervalle_min: Some(5),
            smtp: None,
            webpush: None,
            webpush_public_key: Some("cle".to_string()),
        }
    );
    assert_eq!(parametres_email(&Some(c.clone())).err(), Some(ErreurEmail::EmailFromManquant));
    c.email_from = Some("relais@exemple.com".to_string());
    assert_eq!(parametres_email(&Some(c.clone())).err(), Some(ErreurEmail::SmtpAbsent));
    c.smtp = Some(smtp(None));
    assert_eq!(parametres_email(&Some(c.clone())).err(), Some(ErreurEmail::MotDePasseManquant));
    c.smtp = Some(smtp(Some("secret")));
    let config = Some(c);
    let p = parametres_email(&config).ok().unwrap();
    assert_eq!(p.email_from, "relais@exemple.com");
    assert_eq!(p.password, "secret");
    assert_eq!(p.smtp.hostname, "smtp.exemple.com");
    assert_eq!(p.smtp.port, 587);
}

#[test]
fn web_push_accepts_one_encoding_and_one_header() {
    assert!(encodage_webpush_supporte("aes128gcm"));
    assert!(!encodage_webpush_supporte("aesgcm"));
    assert!(!encodage_webpush_supporte(""));
    assert!(entete_webpush_supportee("Authorization"));
    assert!(!entete_webpush_supportee("authorization"));
    assert!(!entete_webpush_supportee("Crypto-Key"));
}

#[test]
fn commands_by_name() {
    assert_eq!(type_commande("poster"), Some(TypeCommande::Poster));
    assert_eq!(type_commande("pousserAttachment"), Some(TypeCommande::PousserAttachment));
    assert_eq!(type_commande("postNotification"), Some(TypeCommande::PostNotification));
    assert_eq!(type_commande("prochainAttachment"), None);
    assert_eq!(type_commande("Poster"), None);
    assert_eq!(type_commande(""), None);
}

#[test]
fn who_may_send_commands() {
    let personne =
        Emetteur { role_prive: false, user_id_present: false, exchange_reconnu: false, delegation_globale: false };
    assert!(!message_autorise(personne));
    assert!(!message_autorise(Emetteur { role_prive: true, ..personne }));
    assert!(!message_autorise(Emetteur { user_id_present: true, ..personne }));
    assert!(message_autorise(Emetteur { role_prive: true, user_id_present: true, ..personne }));
    assert!(message_autorise(Emetteur { exchange_reconnu: true, ..personne }));
    assert!(message_autorise(Emetteur { delegation_globale: true, ..personne }));
}
