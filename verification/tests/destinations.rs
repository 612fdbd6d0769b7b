use postmaster::adresse::{route_destination, Route};
use postmaster::destinations::{ordonner_destinations, trier_destinations};
use postmaster::messages_struct::{FicheApplication, FicheMillegrilleApplication};

fn application(url: &str) -> FicheApplication {
    FicheApplication { application: "messagerie_web".to_string(), url: url.to_string(), version: None }
}

fn fiche(urls: &[&str]) -> FicheMillegrilleApplication {
    FicheMillegrilleApplication {
        idmg: "zABC".to_string(),
        adresses: vec![],
        application: urls.iter().map(|u| application(u)).collect(),
        ca: None,
        chiffrage: None,
    }
}

#[test]
fn route_of_addresses() {
    assert_eq!(route_destination("https://exemple.com/messagerie"), Route::Clair);
    assert_eq!(route_destination("https://abcdefgh.onion/messagerie"), Route::Onion);
    assert_eq!(route_destination("https://127.0.0.1/messagerie"), Route::Clair);
    assert_eq!(route_destination("https://192.0.2.10:443/messagerie"), Route::Clair);
    assert_eq!(route_destination("https://[2001:db8::1]/messagerie"), Route::Clair);
    assert_eq!(route_destination("mailto:a@exemple.com"), Route::SansHote);
    assert_eq!(route_destination("data:text/plain,abc"), Route::SansHote);
    assert_eq!(route_destination("pas une adresse"), Route::Invalide);
    assert_eq!(route_destination("https://onion/"), Route::Clair);
}

#[test]
fn onions_only_without_tor_gives_nothing() {
    let f = fiche(&["https://aaa.onion/m", "https://bbb.onion/m"]);
    assert!(trier_destinations(&f, false).is_empty());
}

#[test]
fn onions_first_with_tor_in_catalog_order() {
    let f = fiche(&[
        "https://un.exemple.com/m",
        "https://aaa.onion/m",
        "rien",
        "https://deux.exemple.com/m",
        "https://bbb.onion/m",
    ]);
    let urls: Vec<&str> = trier_destinations(&f, true).iter().map(|a| a.url.as_str()).collect();
    assert_eq!(
        urls,
        vec![
            "https://aaa.onion/m",
            "https://bbb.onion/m",
            "https://un.exemple.com/m",
            "https://deux.exemple.com/m"
        ]
    );
    let urls: Vec<&str> = trier_destinations(&f, false).iter().map(|a| a.url.as_str()).collect();
    assert_eq!(urls, vec!["https://un.exemple.com/m", "https://deux.exemple.com/m"]);
}

#[test]
fn order_of_positions() {
    let routes = vec![Route::Clair, Route::Onion, Route::Invalide, Route::Onion, Route::SansHote, Route::Clair];
    assert_eq!(ordonner_destinations(&routes, true), vec![1, 3, 0, 5]);
    assert_eq!(ordonner_destinations(&routes, false), vec![0, 5]);
}

#[test]
fn mixed_catalog_keeps_each_group_in_order() {
    let f = fiche(&[
        "https://c1.exemple.com/m",
        "https://o1.onion/m",
        "https://o2.onion/m",
        "https://c2.exemple.com/m",
        "https://o3.onion/m",
    ]);
    let triees = trier_destinations(&f, true);
    let onions: Vec<&str> = triees
        .iter()
        .map(|a| a.url.as_str())
        .filter(|u| route_destination(u) == Route::Onion)
        .collect();
    let clairs: Vec<&str> = triees
        .iter()
        .map(|a| a.url.as_str())
        .filter(|u| route_destination(u) == Route::Clair)
        .collect();
    assert_eq!(onions, vec!["https://o1.onion/m", "https://o2.onion/m", "https://o3.onion/m"]);
    assert_eq!(clairs, vec!["https://c1.exemple.com/m", "https://c2.exemple.com/m"]);
    let premier_clair = triees.iter().position(|a| route_destination(&a.url) == Route::Clair).unwrap();
    assert_eq!(premier_clair, 3);
    assert!(triees[premier_clair..].iter().all(|a| route_destination(&a.url) == Route::Clair));
}

#[test]
fn empty_catalog_gives_nothing() {
    let f = fiche(&[]);
    assert!(trier_destinations(&f, true).is_empty());
    assert!(trier_destinations(&f, false).is_empty());
}

#[test]
fn addresses_without_host_are_left_out() {
    let f = fiche(&["mailto:a@exemple.com", "://", "https://ok.exemple.com", "data:text/plain,abc"]);
    let urls: Vec<&str> = trier_destinations(&f, true).iter().map(|a| a.url.as_str()).collect();
    assert_eq!(urls, vec!["https://ok.exemple.com"]);
}

#[test]
fn address_with_an_ip_host_stays_in_the_order() {
    let f = fiche(&["https://192.0.2.10:443/messagerie"]);
    let urls: Vec<&str> = trier_destinations(&f, false).iter().map(|a| a.url.as_str()).collect();
    assert_eq!(urls, vec!["https://192.0.2.10:443/messagerie"]);
    let f = fiche(&["https://un.exemple.com/m", "https://aaa.onion/m", "https://192.0.2.10/m", "https://[::1]/m"]);
    let urls: Vec<&str> = trier_destinations(&f, true).iter().map(|a| a.url.as_str()).collect();
    assert_eq!(
        urls,
        vec!["https://aaa.onion/m", "https://un.exemple.com/m", "https://192.0.2.10/m", "https://[::1]/m"]
    );
}
