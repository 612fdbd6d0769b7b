use postmaster::commandes::{
    confirmer_transmission, status_succes, ActionPoste, CurseurPoste, DestinationPoste, EvenementPoste, PhasePoste,
    PosteMessage,
};
use postmaster::destinations::Candidat;
use postmaster::gestionnaire::TypeClient;
use postmaster::messages_struct::ConfirmationTransmissionDestinataire;

fn domaine(idmg: &str, destinataires: &[&str], urls: &[&str]) -> DestinationPoste {
    DestinationPoste {
        idmg: idmg.to_string(),
        destinataires: destinataires.iter().map(|d| d.to_string()).collect(),
        candidats: urls.iter().map(|u| Candidat { url: u.to_string(), client: TypeClient::Remote }).collect(),
        corps: vec![0x1f, 0x8b],
    }
}

#[test]
fn success_statuses() {
    assert!(status_succes(200));
    assert!(status_succes(201));
    assert!(status_succes(299));
    assert!(!status_succes(199));
    assert!(!status_succes(300));
    assert!(!status_succes(409));
    assert!(!status_succes(503));
}

#[test]
fn two_domains_first_succeeds_second_has_no_candidate() {
    let destinations = vec![
        domaine("zUn", &["@a/un.com"], &["https://un.com/m", "https://un2.com/m"]),
        domaine("zDeux", &["@b/deux.com", "@c/deux.com"], &[]),
    ];
    let (mut poste, action) = PosteMessage::nouveau("msg-1".to_string(), destinations);
    assert_eq!(action, ActionPoste::Poster { domaine: 0, candidat: 0 });
    assert_eq!(poste.candidat(0, 0).unwrap().url, "https://un.com/m");

    let action = poste.etape(EvenementPoste::Reponse(201));
    assert_eq!(action, ActionPoste::Confirmer { domaine: 0, code: 201 });
    let c = poste.confirmation(0, 201).unwrap();
    assert_eq!(c.uuid_message, "msg-1");
    assert_eq!(c.idmg, "zUn");
    assert_eq!(c.code, 201);
    assert_eq!(
        c.destinataires,
        vec![ConfirmationTransmissionDestinataire { destinataire: "@a/un.com".to_string(), code: 201 }]
    );

    let action = poste.etape(EvenementPoste::Confirme);
    assert_eq!(action, ActionPoste::Confirmer { domaine: 1, code: 503 });
    let c = poste.confirmation(1, 503).unwrap();
    assert_eq!(c.idmg, "zDeux");
    assert_eq!(c.code, 503);
    assert_eq!(
        c.destinataires,
        vec![
            ConfirmationTransmissionDestinataire { destinataire: "@b/deux.com".to_string(), code: 503 },
            ConfirmationTransmissionDestinataire { destinataire: "@c/deux.com".to_string(), code: 503 },
        ]
    );

    let action = poste.etape(EvenementPoste::Confirme);
    assert_eq!(action, ActionPoste::Terminer);
    assert_eq!(poste.curseur.phase, PhasePoste::Termine);
    assert_eq!(poste.etape(EvenementPoste::Confirme), ActionPoste::Ignorer);
    assert_eq!(poste.etape(EvenementPoste::Reponse(200)), ActionPoste::Ignorer);
}

#[test]
fn candidates_are_tried_until_one_succeeds() {
    let destinations = vec![domaine("zUn", &["@a/un.com"], &["https://a/m", "https://b/m", "https://c/m"])];
    let (mut poste, action) = PosteMessage::nouveau("msg-2".to_string(), destinations);
    assert_eq!(action, ActionPoste::Poster { domaine: 0, candidat: 0 });
    assert_eq!(poste.etape(EvenementPoste::Reponse(500)), ActionPoste::Poster { domaine: 0, candidat: 1 });
    assert_eq!(poste.candidat(0, 1).unwrap().url, "https://b/m");
    assert_eq!(poste.etape(EvenementPoste::EchecEnvoi), ActionPoste::Poster { domaine: 0, candidat: 2 });
    assert_eq!(poste.curseur, CurseurPoste { domaine: 0, candidat: 2, code: 500, phase: PhasePoste::Envoi });
    assert_eq!(poste.etape(EvenementPoste::Reponse(200)), ActionPoste::Confirmer { domaine: 0, code: 200 });
    assert_eq!(poste.etape(EvenementPoste::Confirme), ActionPoste::Terminer);
}

#[test]
fn success_stops_at_the_first_candidate() {
    let destinations = vec![domaine("zUn", &[], &["https://a/m", "https://b/m"])];
    let (mut poste, _) = PosteMessage::nouveau("msg-3".to_string(), destinations);
    assert_eq!(poste.etape(EvenementPoste::Reponse(204)), ActionPoste::Confirmer { domaine: 0, code: 204 });
}

#[test]
fn failure_of_all_candidates_reports_the_last_status() {
    let destinations = vec![domaine("zUn", &[], &["https://a/m", "https://b/m"])];
    let (mut poste, _) = PosteMessage::nouveau("msg-4".to_string(), destinations);
    assert_eq!(poste.etape(EvenementPoste::Reponse(500)), ActionPoste::Poster { domaine: 0, candidat: 1 });
    assert_eq!(poste.etape(EvenementPoste::Reponse(404)), ActionPoste::Confirmer { domaine: 0, code: 404 });

    let destinations = vec![domaine("zUn", &[], &["https://a/m", "https://b/m"])];
    let (mut poste, _) = PosteMessage::nouveau("msg-5".to_string(), destinations);
    assert_eq!(poste.etape(EvenementPoste::Reponse(404)), ActionPoste::Poster { domaine: 0, candidat: 1 });
    assert_eq!(poste.etape(EvenementPoste::EchecEnvoi), ActionPoste::Confirmer { domaine: 0, code: 404 });
}

#[test]
fn send_error_keeps_the_status_of_the_last_answer() {
    let destinations = vec![
        domaine("zUn", &[], &["https://a/m", "https://b/m"]),
        domaine("zDeux", &[], &["https://c/m", "https://d/m", "https://e/m"]),
    ];
    let (mut poste, _) = PosteMessage::nouveau("msg-10".to_string(), destinations);
    assert_eq!(poste.etape(EvenementPoste::Reponse(500)), ActionPoste::Poster { domaine: 0, candidat: 1 });
    assert_eq!(poste.etape(EvenementPoste::EchecEnvoi), ActionPoste::Confirmer { domaine: 0, code: 500 });
    assert_eq!(poste.etape(EvenementPoste::Confirme), ActionPoste::Poster { domaine: 1, candidat: 0 });
    assert_eq!(poste.curseur.code, 503);
    assert_eq!(poste.etape(EvenementPoste::EchecEnvoi), ActionPoste::Poster { domaine: 1, candidat: 1 });
    assert_eq!(poste.etape(EvenementPoste::Reponse(429)), ActionPoste::Poster { domaine: 1, candidat: 2 });
    assert_eq!(poste.etape(EvenementPoste::EchecEnvoi), ActionPoste::Confirmer { domaine: 1, code: 429 });
}

#[test]
fn send_errors_alone_give_503() {
    let destinations = vec![domaine("zUn", &[], &["https://a/m", "https://b/m"])];
    let (mut poste, _) = PosteMessage::nouveau("msg-11".to_string(), destinations);
    assert_eq!(poste.etape(EvenementPoste::EchecEnvoi), ActionPoste::Poster { domaine: 0, candidat: 1 });
    assert_eq!(poste.etape(EvenementPoste::EchecEnvoi), ActionPoste::Confirmer { domaine: 0, code: 503 });
}

#[test]
fn unawaited_events_change_nothing() {
    let destinations = vec![domaine("zUn", &[], &["https://a/m"])];
    let (mut poste, _) = PosteMessage::nouveau("msg-6".to_string(), destinations);
    let avant = poste.curseur;
    assert_eq!(poste.etape(EvenementPoste::Confirme), ActionPoste::Ignorer);
    assert_eq!(poste.curseur, avant);
    assert_eq!(poste.etape(EvenementPoste::Reponse(302)), ActionPoste::Confirmer { domaine: 0, code: 302 });
    let avant = poste.curseur;
    assert_eq!(poste.etape(EvenementPoste::Reponse(200)), ActionPoste::Ignorer);
    assert_eq!(poste.etape(EvenementPoste::EchecEnvoi), ActionPoste::Ignorer);
    assert_eq!(poste.curseur, avant);
}

#[test]
fn message_without_destination_ends_at_once() {
    let (mut poste, action) = PosteMessage::nouveau("msg-7".to_string(), vec![]);
    assert_eq!(action, ActionPoste::Terminer);
    assert_eq!(poste.etape(EvenementPoste::Confirme), ActionPoste::Ignorer);
    assert!(poste.confirmation(0, 200).is_none());
    assert!(poste.candidat(0, 0).is_none());
}

#[test]
fn every_domain_is_confirmed_once_in_order() {
    let destinations = vec![
        domaine("z0", &[], &["https://a/m"]),
        domaine("z1", &[], &[]),
        domaine("z2", &[], &["https://b/m", "https://c/m"]),
    ];
    let (mut poste, premiere) = PosteMessage::nouveau("msg-8".to_string(), destinations);
    let evenements = vec![
        EvenementPoste::EchecEnvoi,
        EvenementPoste::Reponse(200),
        EvenementPoste::Confirme,
        EvenementPoste::Confirme,
        EvenementPoste::Confirme,
        EvenementPoste::Reponse(502),
        EvenementPoste::Reponse(200),
        EvenementPoste::Confirme,
        EvenementPoste::Confirme,
    ];
    let mut actions = vec![premiere];
    for e in evenements {
        actions.push(poste.etape(e));
    }
    let confirmes: Vec<(usize, u16)> = actions
        .iter()
        .filter_map(|a| match a {
            ActionPoste::Confirmer { domaine, code } => Some((*domaine, *code)),
            _ => None,
        })
        .collect();
    assert_eq!(confirmes, vec![(0, 503), (1, 503), (2, 200)]);
    assert_eq!(poste.curseur.phase, PhasePoste::Termine);
}

#[test]
fn confirmation_gives_each_recipient_the_code_of_the_domain() {
    let destinataires = vec!["@a/x.com".to_string(), "@b/x.com".to_string(), "@c/x.com".to_string()];
    let c = confirmer_transmission("msg-9", "zX", &destinataires, 404);
    assert_eq!(c.uuid_message, "msg-9");
    assert_eq!(c.idmg, "zX");
    assert_eq!(c.code, 404);
    assert_eq!(c.destinataires.len(), 3);
    for (i, d) in c.destinataires.iter().enumerate() {
        assert_eq!(d.destinataire, destinataires[i]);
        assert_eq!(d.code, 404);
    }
    let vide = confirmer_transmission("msg-9", "zX", &vec![], 200);
    assert!(vide.destinataires.is_empty());
}
