//! What holds of every course that an upload can take: the events that it
//! announces, and the bytes that its parts carry.

use vstd::prelude::*;
use crate::commandes::est_succes;
use crate::constantes::{LIMITE_PART, STATUS_CONFLIT};
use crate::destinations::Candidat;
use crate::messages_struct::ResponsePutFichierPartiel;
use crate::texte::entier_decimal;
use crate::transfert_fichier::{
    finalisation_acceptee,
    longueur,
    taille_declaree,
    upload_en_parts,
    ActionTransfert,
    EvenementTransfert,
    PhaseTransfert,
    TransfertFichier,
};

verus! {

/// Where the transfer stands after the events `evenements`, from `depart`.
pub open spec fn etat_apres(
    depart: TransfertFichier,
    evenements: Seq<EvenementTransfert>,
) -> TransfertFichier
    decreases evenements.len(),
{
    if evenements.len() == 0 {
        depart
    } else {
        etat_apres(depart, evenements.drop_last()).suivant(evenements.last()).0
    }
}

/// Everything that the transfer asked for, in order: `premiere` at the
/// beginning, then one action for each of `evenements`.
pub open spec fn actions_apres(
    depart: TransfertFichier,
    premiere: ActionTransfert,
    evenements: Seq<EvenementTransfert>,
) -> Seq<ActionTransfert>
    decreases evenements.len(),
{
    if evenements.len() == 0 {
        seq![premiere]
    } else {
        actions_apres(depart, premiere, evenements.drop_last()).push(
            etat_apres(depart, evenements.drop_last()).suivant(evenements.last()).1,
        )
    }
}

/// Law: an upload announces its end once. As long as it is under way no
/// action is terminal; the action that ends it is terminal, and whatever
/// happens afterwards is ignored.
pub proof fn loi_un_evenement_terminal(
    uuid_message: String,
    idmg: String,
    fuuid: String,
    candidats: Vec<Candidat>,
    evenements: Seq<EvenementTransfert>,
)
    ensures
        ({
            let depart = TransfertFichier::depart(uuid_message, idmg, fuuid, candidats);
            let fin = etat_apres(depart.0, evenements);
            let actions = actions_apres(depart.0, depart.1, evenements);
            &&& actions.len() == evenements.len() + 1
            &&& fin.phase == PhaseTransfert::Termine <==> exists|i: int|
                0 <= i < actions.len() && (#[trigger] actions[i]).est_terminale()
            &&& forall|i: int, j: int|
                0 <= i < j < actions.len() && (#[trigger] actions[i]).est_terminale()
                    ==> #[trigger] actions[j] == ActionTransfert::Ignorer
        }),
    decreases evenements.len(),
{
    let depart = TransfertFichier::depart(uuid_message, idmg, fuuid, candidats);
    let fin = etat_apres(depart.0, evenements);
    let actions = actions_apres(depart.0, depart.1, evenements);
    if evenements.len() == 0 {
        if fin.phase == PhaseTransfert::Termine {
            assert(actions[0].est_terminale());
        }
    } else {
        let debut = evenements.drop_last();
        loi_un_evenement_terminal(uuid_message, idmg, fuuid, candidats, debut);
        let avant = etat_apres(depart.0, debut);
        let actions_avant = actions_apres(depart.0, depart.1, debut);
        let pas = avant.suivant(evenements.last());
        assert(actions == actions_avant.push(pas.1));
        let dernier = actions.len() - 1;
        assert(actions[dernier] == pas.1);
        assert(forall|i: int| 0 <= i < dernier ==> actions[i] == actions_avant[i]);
        if avant.phase == PhaseTransfert::Termine {
            let i = choose|i: int|
                0 <= i < actions_avant.len() && (#[trigger] actions_avant[i]).est_terminale();
            assert(actions[i].est_terminale());
        } else {
            if fin.phase == PhaseTransfert::Termine {
                assert(actions[dernier].est_terminale());
            }
            assert forall|i: int| 0 <= i < actions.len() && (
            #[trigger] actions[i]).est_terminale() implies fin.phase == PhaseTransfert::Termine by {
                if i < dernier {
                    assert(actions_avant[i].est_terminale());
                }
            }
        }
        assert forall|i: int, j: int|
            0 <= i < j < actions.len() && (#[trigger] actions[i]).est_terminale() implies #[trigger] actions[j]
            == ActionTransfert::Ignorer by {
            assert(actions_avant[i].est_terminale());
            if j < dernier {
                assert(actions_avant[j] == ActionTransfert::Ignorer);
            }
        }
    }
}

/// Whether an event is an answer of the remote side with a status of
/// success.
pub open spec fn est_reponse_succes(evenement: EvenementTransfert) -> bool {
    evenement matches EvenementTransfert::Reponse { status, x_position, ack } && est_succes(status)
}

/// Law: where no endpoint ever answers with a success, the upload is never
/// reported complete; once it has ended, it has announced one failure and
/// nothing else.
pub proof fn loi_echec_de_tous_les_candidats(
    uuid_message: String,
    idmg: String,
    fuuid: String,
    candidats: Vec<Candidat>,
    evenements: Seq<EvenementTransfert>,
)
    requires
        forall|k: int| 0 <= k < evenements.len() ==> !est_reponse_succes(#[trigger] evenements[k]),
    ensures
        ({
            let depart = TransfertFichier::depart(uuid_message, idmg, fuuid, candidats);
            let fin = etat_apres(depart.0, evenements);
            let actions = actions_apres(depart.0, depart.1, evenements);
            &&& forall|i: int| 0 <= i < actions.len() ==> !(#[trigger] actions[i] is Complete)
            &&& fin.phase == PhaseTransfert::Termine ==> exists|i: int|
                0 <= i < actions.len() && #[trigger] actions[i] is Erreur && forall|j: int|
                    0 <= j < actions.len() && j != i ==> !(#[trigger] actions[j]).est_terminale()
        }),
{
    lemme_sans_succes(uuid_message, idmg, fuuid, candidats, evenements);
    loi_un_evenement_terminal(uuid_message, idmg, fuuid, candidats, evenements);
    let depart = TransfertFichier::depart(uuid_message, idmg, fuuid, candidats);
    let fin = etat_apres(depart.0, evenements);
    let actions = actions_apres(depart.0, depart.1, evenements);
    if fin.phase == PhaseTransfert::Termine {
        let i = choose|i: int| 0 <= i < actions.len() && (#[trigger] actions[i]).est_terminale();
        assert(actions[i] is Erreur);
        assert forall|j: int| 0 <= j < actions.len() && j != i implies !(
        #[trigger] actions[j]).est_terminale() by {
            if actions[j].est_terminale() {
                if j < i {
                    assert(actions[i] == ActionTransfert::Ignorer);
                } else {
                    assert(actions[j] == ActionTransfert::Ignorer);
                }
            }
        }
    }
}

proof fn lemme_sans_succes(
    uuid_message: String,
    idmg: String,
    fuuid: String,
    candidats: Vec<Candidat>,
    evenements: Seq<EvenementTransfert>,
)
    requires
        forall|k: int| 0 <= k < evenements.len() ==> !est_reponse_succes(#[trigger] evenements[k]),
    ensures
        ({
            let depart = TransfertFichier::depart(uuid_message, idmg, fuuid, candidats);
            let actions = actions_apres(depart.0, depart.1, evenements);
            forall|i: int| 0 <= i < actions.len() ==> !(#[trigger] actions[i] is Complete)
        }),
    decreases evenements.len(),
{
    let depart = TransfertFichier::depart(uuid_message, idmg, fuuid, candidats);
    let actions = actions_apres(depart.0, depart.1, evenements);
    if evenements.len() > 0 {
        let debut = evenements.drop_last();
        assert forall|k: int| 0 <= k < debut.len() implies !est_reponse_succes(
            #[trigger] debut[k],
        ) by {
            assert(debut[k] == evenements[k]);
        }
        lemme_sans_succes(uuid_message, idmg, fuuid, candidats, debut);
        let avant = etat_apres(depart.0, debut);
        let actions_avant = actions_apres(depart.0, depart.1, debut);
        let pas = avant.suivant(evenements.last());
        assert(!est_reponse_succes(evenements[evenements.len() - 1]));
        assert(!(pas.1 is Complete));
        assert forall|i: int| 0 <= i < actions.len() implies !(#[trigger] actions[i] is Complete) by {
            if i < actions.len() - 1 {
                assert(actions[i] == actions_avant[i]);
            }
        }
    }
}

/// Whether an event lets the upload be reported complete when it goes in
/// parts: an answer of success that holds an acknowledgement with `ok`.
pub open spec fn est_finalisation_acceptee(evenement: EvenementTransfert) -> bool {
    evenement matches EvenementTransfert::Reponse { status, x_position, ack }
        && finalisation_acceptee(status, ack)
}

/// Whether an event opens a source whose declared size lets it go in one
/// request.
pub open spec fn est_source_simple(evenement: EvenementTransfert) -> bool {
    evenement matches EvenementTransfert::SourceOuverte { content_length } && !upload_en_parts(
        taille_declaree(content_length),
    )
}

/// Whether no answer that comes while the transfer waits for the answer to
/// its closing request accepts it. The answers to the parts may say what
/// they will.
pub open spec fn finalisation_jamais_acceptee(
    depart: TransfertFichier,
    evenements: Seq<EvenementTransfert>,
) -> bool {
    forall|k: int|
        0 <= k < evenements.len() && (#[trigger] etat_apres(depart, evenements.take(k))).phase
            == PhaseTransfert::Finalisation ==> !est_finalisation_acceptee(evenements[k])
}

/// Law: an upload in parts whose closing request is never acknowledged with
/// `ok` is never reported complete, however its parts were answered; once
/// it has ended, it has announced a failure.
pub proof fn loi_finalisation_refusee(
    uuid_message: String,
    idmg: String,
    fuuid: String,
    candidats: Vec<Candidat>,
    evenements: Seq<EvenementTransfert>,
)
    requires
        forall|k: int| 0 <= k < evenements.len() ==> !est_source_simple(#[trigger] evenements[k]),
        finalisation_jamais_acceptee(
            TransfertFichier::depart(uuid_message, idmg, fuuid, candidats).0,
            evenements,
        ),
    ensures
        ({
            let depart = TransfertFichier::depart(uuid_message, idmg, fuuid, candidats);
            let fin = etat_apres(depart.0, evenements);
            let actions = actions_apres(depart.0, depart.1, evenements);
            &&& fin.phase != PhaseTransfert::Simple
            &&& forall|i: int| 0 <= i < actions.len() ==> !(#[trigger] actions[i] is Complete)
            &&& fin.phase == PhaseTransfert::Termine ==> exists|i: int|
                0 <= i < actions.len() && #[trigger] actions[i] is Erreur
        }),
    decreases evenements.len(),
{
    let depart = TransfertFichier::depart(uuid_message, idmg, fuuid, candidats);
    let fin = etat_apres(depart.0, evenements);
    let actions = actions_apres(depart.0, depart.1, evenements);
    if evenements.len() > 0 {
        let debut = evenements.drop_last();
        assert forall|k: int| 0 <= k < debut.len() implies !est_source_simple(
            #[trigger] debut[k],
        ) by {
            assert(debut[k] == evenements[k]);
        }
        assert forall|k: int|
            0 <= k < debut.len() && (#[trigger] etat_apres(depart.0, debut.take(k))).phase
                == PhaseTransfert::Finalisation implies !est_finalisation_acceptee(debut[k]) by {
            assert(debut.take(k) =~= evenements.take(k));
            assert(debut[k] == evenements[k]);
        }
        loi_finalisation_refusee(uuid_message, idmg, fuuid, candidats, debut);
        let avant = etat_apres(depart.0, debut);
        let actions_avant = actions_apres(depart.0, depart.1, debut);
        let pas = avant.suivant(evenements.last());
        let dernier = evenements[evenements.len() - 1];
        assert(!est_source_simple(dernier));
        assert(evenements.take(evenements.len() - 1) =~= debut);
        assert(etat_apres(depart.0, evenements.take(evenements.len() - 1)) == avant);
        assert(avant.phase == PhaseTransfert::Finalisation ==> !est_finalisation_acceptee(dernier));
        assert(!(pas.1 is Complete));
        assert forall|i: int| 0 <= i < actions.len() implies !(#[trigger] actions[i] is Complete) by {
            if i < actions.len() - 1 {
                assert(actions[i] == actions_avant[i]);
            }
        }
    }
    loi_un_evenement_terminal(uuid_message, idmg, fuuid, candidats, evenements);
    if fin.phase == PhaseTransfert::Termine {
        let i = choose|i: int| 0 <= i < actions.len() && (#[trigger] actions[i]).est_terminale();
        assert(actions[i] is Erreur);
    }
}

/// The byte of the attachment at which the source was last opened.
pub open spec fn debut_source(actions: Seq<ActionTransfert>) -> nat
    decreases actions.len(),
{
    if actions.len() == 0 {
        0
    } else {
        match actions.last() {
            ActionTransfert::OuvrirSource { debut } => debut as nat,
            _ => debut_source(actions.drop_last()),
        }
    }
}

/// The positions of the parts begun since the source was last opened, in
/// order.
pub open spec fn positions_parts(actions: Seq<ActionTransfert>) -> Seq<u64>
    decreases actions.len(),
{
    if actions.len() == 0 {
        Seq::empty()
    } else {
        match actions.last() {
            ActionTransfert::OuvrirSource { debut } => Seq::empty(),
            ActionTransfert::DebuterPart { candidat, position, premier } => positions_parts(
                actions.drop_last(),
            ).push(position),
            _ => positions_parts(actions.drop_last()),
        }
    }
}

/// The bytes of a chunk that may be absent.
pub open spec fn octets_de(chunk: Option<Vec<u8>>) -> Seq<u8> {
    match chunk {
        Some(octets) => octets@,
        None => Seq::empty(),
    }
}

/// The bytes written to the bodies of the parts since the source was last
/// opened, in order.
pub open spec fn contenu_ecrit(actions: Seq<ActionTransfert>) -> Seq<u8>
    decreases actions.len(),
{
    if actions.len() == 0 {
        Seq::empty()
    } else {
        match actions.last() {
            ActionTransfert::OuvrirSource { debut } => Seq::empty(),
            ActionTransfert::DebuterPart { candidat, position, premier } => contenu_ecrit(
                actions.drop_last(),
            ) + octets_de(premier),
            ActionTransfert::Ecrire(octets) => contenu_ecrit(actions.drop_last()) + octets@,
            _ => contenu_ecrit(actions.drop_last()),
        }
    }
}

/// The number of closing requests asked for since the source was last
/// opened.
pub open spec fn nb_finalisations(actions: Seq<ActionTransfert>) -> nat
    decreases actions.len(),
{
    if actions.len() == 0 {
        0
    } else {
        match actions.last() {
            ActionTransfert::OuvrirSource { debut } => 0,
            ActionTransfert::Finaliser { candidat } => nb_finalisations(actions.drop_last()) + 1,
            _ => nb_finalisations(actions.drop_last()),
        }
    }
}

/// The number of times that a part was begun, fed or ended after a closing
/// request, since the source was last opened.
pub open spec fn nb_parts_apres_finalisation(actions: Seq<ActionTransfert>) -> nat
    decreases actions.len(),
{
    if actions.len() == 0 {
        0
    } else {
        let avant = actions.drop_last();
        match actions.last() {
            ActionTransfert::OuvrirSource { debut } => 0,
            ActionTransfert::DebuterPart { candidat, position, premier } => nb_parts_apres_finalisation(
                avant,
            ) + nb_finalisations(avant),
            ActionTransfert::Ecrire(octets) => nb_parts_apres_finalisation(avant) + nb_finalisations(
                avant,
            ),
            ActionTransfert::FinirPart => nb_parts_apres_finalisation(avant) + nb_finalisations(avant),
            _ => nb_parts_apres_finalisation(avant),
        }
    }
}

/// The bytes that the transfer took from the source since it was last
/// opened, in order: those of the reads that came while a part was under
/// way.
pub open spec fn contenu_lu(
    depart: TransfertFichier,
    evenements: Seq<EvenementTransfert>,
) -> Seq<u8>
    decreases evenements.len(),
{
    if evenements.len() == 0 {
        Seq::empty()
    } else {
        let avant = etat_apres(depart, evenements.drop_last());
        lu_apres(avant.phase, contenu_lu(depart, evenements.drop_last()), evenements.last())
    }
}

/// What has been taken from the source once `evenement` has come in the
/// phase `phase`, where `lu` had been taken before.
pub open spec fn lu_apres(phase: PhaseTransfert, lu: Seq<u8>, evenement: EvenementTransfert) -> Seq<
    u8,
> {
    match evenement {
        EvenementTransfert::SourceOuverte { content_length } => if phase
            == PhaseTransfert::Ouverture {
            Seq::empty()
        } else {
            lu
        },
        EvenementTransfert::Chunk(octets) => if phase == PhaseTransfert::Lecture {
            lu + octets@
        } else {
            lu
        },
        _ => lu,
    }
}

/// What ties a transfer that is under way to what it asked for and what it
/// was given since the source was last opened.
pub open spec fn parts_coherentes(
    etat: TransfertFichier,
    actions: Seq<ActionTransfert>,
    lu: Seq<u8>,
) -> bool {
    let positions = positions_parts(actions);
    let base = debut_source(actions);
    let ecrit = contenu_ecrit(actions);
    &&& forall|j: int, k: int|
        0 <= j < k < positions.len() ==> #[trigger] positions[j] < #[trigger] positions[k]
    &&& nb_finalisations(actions) <= 1
    &&& nb_parts_apres_finalisation(actions) == 0
    &&& etat.phase != PhaseTransfert::Termine && positions.len() >= 1 ==> positions[0] == base
    &&& etat.phase != PhaseTransfert::Termine && positions.len() >= 2 ==> lu.len() > LIMITE_PART
    &&& match etat.phase {
        PhaseTransfert::Ouverture => {
            &&& positions.len() == 0
            &&& ecrit.len() == 0
            &&& nb_finalisations(actions) == 0
            &&& etat.flux.position == base
            &&& etat.flux.chunk_overlap is None
            &&& etat.compteur == 0
        },
        PhaseTransfert::Simple => positions.len() == 0 && nb_finalisations(actions) == 0,
        PhaseTransfert::Lecture => {
            &&& parts_dans_leurs_limites(etat, positions, base, ecrit)
            &&& etat.flux.chunk_overlap is None
            &&& ecrit == lu
            &&& nb_finalisations(actions) == 0
            &&& !etat.source_epuisee
        },
        PhaseTransfert::AttenteReponse => {
            &&& parts_dans_leurs_limites(etat, positions, base, ecrit)
            &&& ecrit + octets_de(etat.flux.chunk_overlap) == lu
            &&& nb_finalisations(actions) == 0
            &&& etat.source_epuisee ==> etat.flux.chunk_overlap is None
            &&& !etat.source_epuisee ==> etat.compteur > 0 && 0 < longueur(etat.flux.chunk_overlap)
                <= LIMITE_PART && lu.len() > LIMITE_PART
        },
        PhaseTransfert::Finalisation => {
            &&& parts_dans_leurs_limites(etat, positions, base, ecrit)
            &&& ecrit == lu
            &&& nb_finalisations(actions) == 1
        },
        PhaseTransfert::Termine => true,
    }
}

/// Whether the part under way begins where the last position says, holds
/// no more than its limit as the parts before it, and the upload stands
/// where the bytes written take it.
pub open spec fn parts_dans_leurs_limites(
    etat: TransfertFichier,
    positions: Seq<u64>,
    base: nat,
    ecrit: Seq<u8>,
) -> bool {
    &&& positions.len() > 0
    &&& positions.last() + etat.compteur == etat.flux.position
    &&& positions.last() <= base + (positions.len() - 1) * LIMITE_PART
    &&& etat.compteur <= LIMITE_PART
    &&& etat.flux.position == base + ecrit.len()
}

/// Law: in an upload in parts, whatever happens, the parts begun since the
/// source was last opened have strictly increasing positions and each holds
/// no more than its limit, so that there are at least as many parts as the
/// bytes written need; the bytes written to them are the bytes taken from
/// the source, in their order, none lost and none twice, but for the ones
/// held back for the next part; and the closing request is asked for once
/// at most, after the last part, when the source is at its end and the
/// parts hold all that was read. The first part begins where the source was
/// opened, and it is the only one where all that was read fits in one part.
pub proof fn loi_upload_en_parts(
    uuid_message: String,
    idmg: String,
    fuuid: String,
    candidats: Vec<Candidat>,
    evenements: Seq<EvenementTransfert>,
)
    ensures
        ({
            let depart = TransfertFichier::depart(uuid_message, idmg, fuuid, candidats);
            let fin = etat_apres(depart.0, evenements);
            let actions = actions_apres(depart.0, depart.1, evenements);
            let positions = positions_parts(actions);
            let ecrit = contenu_ecrit(actions);
            let lu = contenu_lu(depart.0, evenements);
            &&& parts_coherentes(fin, actions, lu)
            &&& forall|j: int, k: int|
                0 <= j < k < positions.len() ==> #[trigger] positions[j] < #[trigger] positions[k]
            &&& nb_finalisations(actions) <= 1
            &&& nb_parts_apres_finalisation(actions) == 0
            &&& fin.phase == PhaseTransfert::AttenteReponse ==> ecrit + octets_de(
                fin.flux.chunk_overlap,
            ) == lu
            &&& fin.phase == PhaseTransfert::Finalisation ==> {
                &&& nb_finalisations(actions) == 1
                &&& ecrit == lu
                &&& fin.flux.position == debut_source(actions) + ecrit.len()
                &&& positions.len() >= 1
                &&& positions[0] == debut_source(actions)
                &&& ecrit.len() <= positions.len() * LIMITE_PART
                &&& lu.len() <= LIMITE_PART ==> positions.len() == 1
            }
        }),
    decreases evenements.len(),
{
    let depart = TransfertFichier::depart(uuid_message, idmg, fuuid, candidats);
    let fin = etat_apres(depart.0, evenements);
    let actions = actions_apres(depart.0, depart.1, evenements);
    if evenements.len() == 0 {
        assert(actions.len() == 1);
        assert(actions.drop_last() =~= Seq::<ActionTransfert>::empty());
        assert(actions.last() == depart.1);
        assert(positions_parts(actions.drop_last()) =~= Seq::<u64>::empty());
        assert(positions_parts(actions) =~= Seq::<u64>::empty());
        assert(nb_finalisations(actions.drop_last()) == 0);
        assert(nb_parts_apres_finalisation(actions.drop_last()) == 0);
        assert(contenu_ecrit(actions.drop_last()) =~= Seq::<u8>::empty());
        assert(debut_source(actions.drop_last()) == 0);
        assert(parts_coherentes(fin, actions, Seq::<u8>::empty()));
    } else {
        let debut = evenements.drop_last();
        loi_upload_en_parts(uuid_message, idmg, fuuid, candidats, debut);
        let avant = etat_apres(depart.0, debut);
        let actions_avant = actions_apres(depart.0, depart.1, debut);
        let lu_avant = contenu_lu(depart.0, debut);
        let evenement = evenements.last();
        let pas = avant.suivant(evenement);
        assert(actions == actions_avant.push(pas.1));
        assert(actions.drop_last() =~= actions_avant);
        assert(actions.last() == pas.1);
        lemme_pas_coherent(avant, actions_avant, lu_avant, evenement);
    }
}

/// What a transfer in parts keeps stays tied to what it asked for and was
/// given, through any one step.
proof fn lemme_pas_coherent(
    avant: TransfertFichier,
    actions_avant: Seq<ActionTransfert>,
    lu_avant: Seq<u8>,
    evenement: EvenementTransfert,
)
    requires
        parts_coherentes(avant, actions_avant, lu_avant),
    ensures
        ({
            let pas = avant.suivant(evenement);
            parts_coherentes(
                pas.0,
                actions_avant.push(pas.1),
                lu_apres(avant.phase, lu_avant, evenement),
            )
        }),
{
    let pas = avant.suivant(evenement);
    let actions = actions_avant.push(pas.1);
    let lu = lu_apres(avant.phase, lu_avant, evenement);
    assert(actions.drop_last() =~= actions_avant);
    assert(actions.last() == pas.1);
    let positions_avant = positions_parts(actions_avant);
    let positions = positions_parts(actions);
    let ecrit_avant = contenu_ecrit(actions_avant);
    let ecrit = contenu_ecrit(actions);
    match pas.1 {
        ActionTransfert::DebuterPart { candidat, position, premier } => {
            assert(positions == positions_avant.push(position));
            assert(ecrit == ecrit_avant + octets_de(premier));
            if avant.phase == PhaseTransfert::AttenteReponse {
                assert(ecrit_avant + octets_de(avant.flux.chunk_overlap) == lu_avant);
            } else {
                assert(ecrit_avant =~= Seq::<u8>::empty());
            }
            assert(ecrit =~= lu);
            assert forall|j: int, k: int| 0 <= j < k < positions.len() implies #[trigger] positions[j]
                < #[trigger] positions[k] by {
                if k == positions.len() - 1 {
                    if positions_avant.len() > 0 {
                        let d = positions_avant.len() - 1;
                        assert(positions_avant.last() == positions_avant[d]);
                        if j < d {
                            assert(positions_avant[j] < positions_avant[d]);
                        }
                    }
                } else {
                    assert(positions_avant[j] < positions_avant[k]);
                }
            }
        },
        ActionTransfert::OuvrirSource { debut } => {
            assert(ecrit =~= Seq::<u8>::empty());
        },
        ActionTransfert::Ecrire(octets) => {
            assert(positions == positions_avant);
            assert(ecrit == ecrit_avant + octets@);
            assert(ecrit =~= lu);
        },
        ActionTransfert::FinirPart => {
            assert(positions == positions_avant);
            assert(ecrit == ecrit_avant);
            assert(ecrit + octets_de(pas.0.flux.chunk_overlap) =~= lu);
        },
        _ => {
            assert(positions == positions_avant);
            assert(ecrit == ecrit_avant);
        },
    }
}

/// Law: an upload in parts that the remote side tells where to resume goes
/// on in parts from there. Whatever the offset and whatever size the source
/// declares when it is opened anew, the source is asked for from this
/// offset, and the next part begins at this offset with nothing held back.
pub proof fn loi_reprise_en_parts(
    t: TransfertFichier,
    x_position: Vec<u8>,
    q: u64,
    ack: Option<ResponsePutFichierPartiel>,
    content_length: Option<Vec<u8>>,
)
    requires
        t.phase == PhaseTransfert::Lecture || t.phase == PhaseTransfert::AttenteReponse,
        entier_decimal(x_position@) == Some(q),
    ensures
        t.suivant(
            EvenementTransfert::Reponse { status: STATUS_CONFLIT, x_position: Some(x_position), ack },
        ).1 == (ActionTransfert::OuvrirSource { debut: q }),
        t.suivant(
            EvenementTransfert::Reponse { status: STATUS_CONFLIT, x_position: Some(x_position), ack },
        ).0.suivant(EvenementTransfert::SourceOuverte { content_length }).1
            == (ActionTransfert::DebuterPart { candidat: t.candidat, position: q, premier: None }),
{
}

} // verus!
