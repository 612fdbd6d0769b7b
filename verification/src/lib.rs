//! The routing and transfer engine of a relay that moves encrypted messages
//! and their attachments from one trust domain to another over HTTP.
//!
//! The library decides and its caller acts. It orders the endpoints of a
//! remote domain, onion services first when Tor is there to reach them
//! (`destinations`), and chooses the client for each (`gestionnaire`). It
//! leads the post of a message through the endpoints of each destination
//! domain and writes the confirmation for each (`commandes`). It leads the
//! upload of an attachment, whole or in parts that stay within a limit, with
//! resumption where the remote side reports another offset
//! (`transfert_fichier`), and states what holds of every course that such an
//! upload can take (`deroulement`).

pub mod adresse;
pub mod autorisation;
pub mod commandes;
pub mod constantes;
pub mod deroulement;
pub mod destinations;
pub mod gestionnaire;
pub mod messages_struct;
pub mod notifications;
pub mod queues;
pub mod requetes_http;
pub mod texte;
pub mod transfert_fichier;
