//! Text helpers: decimal numbers as they appear in HTTP header values and in
//! request paths.

use vstd::prelude::*;
use vstd::string::*;

verus! {

/// The ASCII code of `0`.
pub const ZERO_ASCII: u8 = 48;

/// The ASCII code of `+`.
pub const PLUS_ASCII: u8 = 43;

/// Whether `octet` is an ASCII decimal digit.
pub open spec fn est_chiffre(octet: u8) -> bool {
    48 <= octet <= 57
}

/// Whether every byte of `octets` is an ASCII decimal digit.
pub open spec fn tous_chiffres(octets: Seq<u8>) -> bool {
    forall|i: int| 0 <= i < octets.len() ==> est_chiffre(#[trigger] octets[i])
}

/// The number that the digits `octets` write in base ten, most significant
/// digit first.
pub open spec fn valeur_decimale(octets: Seq<u8>) -> nat
    decreases octets.len(),
{
    if octets.len() == 0 {
        0
    } else {
        valeur_decimale(octets.drop_last()) * 10 + (octets.last() - 48) as nat
    }
}

/// The digits of a header value once an optional leading `+` is removed.
pub open spec fn sans_signe(octets: Seq<u8>) -> Seq<u8> {
    if octets.len() > 0 && octets[0] == 43 {
        octets.drop_first()
    } else {
        octets
    }
}

/// The meaning of a header value that should hold a byte count: an optional
/// `+`, then at least one decimal digit and nothing else, the whole not
/// exceeding `u64::MAX`. Anything else has no meaning.
pub open spec fn entier_decimal(octets: Seq<u8>) -> Option<u64> {
    let chiffres = sans_signe(octets);
    if chiffres.len() > 0 && tous_chiffres(chiffres) && valeur_decimale(chiffres) <= u64::MAX {
        Some(valeur_decimale(chiffres) as u64)
    } else {
        None
    }
}

/// Appending digits never makes the written number smaller.
pub proof fn lemme_valeur_prefixe(octets: Seq<u8>, n: int)
    requires
        0 <= n <= octets.len(),
        tous_chiffres(octets),
    ensures
        valeur_decimale(octets.subrange(0, n)) <= valeur_decimale(octets),
    decreases octets.len() - n,
{
    if n < octets.len() {
        let plus = octets.subrange(0, n + 1);
        assert(plus.drop_last() =~= octets.subrange(0, n));
        assert(est_chiffre(octets[n]));
        assert(plus.last() == octets[n]);
        lemme_valeur_prefixe(octets, n + 1);
    } else {
        assert(octets.subrange(0, n) =~= octets);
    }
}

/// Reads a byte count from a header value.
pub fn lire_entier(octets: &[u8]) -> (r: Option<u64>)
    ensures
        r == entier_decimal(octets@),
{
    let n: usize = octets.len();
    let debut: usize = if n > 0 && octets[0] == PLUS_ASCII { 1 } else { 0 };
    if debut == n {
        return None;
    }
    let ghost chiffres = sans_signe(octets@);
    assert(chiffres =~= octets@.subrange(debut as int, n as int));
    let mut valeur: u64 = 0;
    let mut i: usize = debut;
    while i < n
        invariant
            debut <= i <= n,
            n == octets@.len(),
            chiffres == sans_signe(octets@),
            chiffres == octets@.subrange(debut as int, n as int),
            tous_chiffres(chiffres.subrange(0, i - debut)),
            valeur == valeur_decimale(chiffres.subrange(0, i - debut)),
        decreases n - i,
    {
        let o: u8 = octets[i];
        let ghost avant = chiffres.subrange(0, i - debut);
        let ghost apres = chiffres.subrange(0, i - debut + 1);
        assert(apres.drop_last() =~= avant);
        assert(apres.last() == o);
        if o < 48 || o > 57 {
            assert(!est_chiffre(chiffres[i - debut]));
            return None;
        }
        assert(tous_chiffres(apres)) by {
            assert forall|k: int| 0 <= k < apres.len() implies est_chiffre(#[trigger] apres[k]) by {
                if k < avant.len() {
                    assert(apres[k] == avant[k]);
                }
            }
        }
        let dizaine: Option<u64> = valeur.checked_mul(10);
        let suivant: Option<u64> = match dizaine {
            Some(d) => d.checked_add((o - ZERO_ASCII) as u64),
            None => None,
        };
        match suivant {
            Some(v) => {
                valeur = v;
            },
            None => {
                proof {
                    assert(valeur_decimale(apres) > u64::MAX);
                    if tous_chiffres(chiffres) {
                        lemme_valeur_prefixe(chiffres, i - debut + 1);
                    }
                }
                return None;
            },
        }
        i = i + 1;
    }
    assert(chiffres.subrange(0, n - debut) =~= chiffres);
    Some(valeur)
}

/// The character that writes the digit `d`.
pub open spec fn caractere_chiffre(d: nat) -> char {
    if d == 0 {
        '0'
    } else if d == 1 {
        '1'
    } else if d == 2 {
        '2'
    } else if d == 3 {
        '3'
    } else if d == 4 {
        '4'
    } else if d == 5 {
        '5'
    } else if d == 6 {
        '6'
    } else if d == 7 {
        '7'
    } else if d == 8 {
        '8'
    } else {
        '9'
    }
}

/// The decimal writing of `n`, without sign or leading zero.
pub open spec fn ecriture_decimale(n: nat) -> Seq<char>
    decreases n,
{
    if n < 10 {
        seq![caractere_chiffre(n)]
    } else {
        ecriture_decimale(n / 10).push(caractere_chiffre(n % 10))
    }
}

fn texte_chiffre(d: u64) -> (t: &'static str)
    requires
        d < 10,
    ensures
        t@ == seq![caractere_chiffre(d as nat)],
{
    proof {
        reveal_strlit("0");
        reveal_strlit("1");
        reveal_strlit("2");
        reveal_strlit("3");
        reveal_strlit("4");
        reveal_strlit("5");
        reveal_strlit("6");
        reveal_strlit("7");
        reveal_strlit("8");
        reveal_strlit("9");
    }
    let t = if d == 0 {
        "0"
    } else if d == 1 {
        "1"
    } else if d == 2 {
        "2"
    } else if d == 3 {
        "3"
    } else if d == 4 {
        "4"
    } else if d == 5 {
        "5"
    } else if d == 6 {
        "6"
    } else if d == 7 {
        "7"
    } else if d == 8 {
        "8"
    } else {
        "9"
    };
    assert(t@ =~= seq![caractere_chiffre(d as nat)]);
    t
}

/// Appends the decimal writing of `n` to `sortie`.
pub fn ajouter_decimal(sortie: &mut String, n: u64)
    ensures
        final(sortie)@ == old(sortie)@ + ecriture_decimale(n as nat),
    decreases n,
{
    if n >= 10 {
        ajouter_decimal(sortie, n / 10);
    }
    sortie.append(texte_chiffre(n % 10));
    assert(sortie@ =~= old(sortie)@ + ecriture_decimale(n as nat));
}

/// The ASCII codes of the characters of a text.
pub open spec fn codes_ascii(texte: Seq<char>) -> Seq<u8> {
    texte.map_values(|c: char| c as u8)
}

/// Law: a number written in decimal is read back as itself.
pub proof fn loi_ecriture_relue(n: u64)
    ensures
        entier_decimal(codes_ascii(ecriture_decimale(n as nat))) == Some(n),
{
    lemme_ecriture_chiffres(n as nat);
    let octets = codes_ascii(ecriture_decimale(n as nat));
    assert(est_chiffre(octets[0]));
    assert(sans_signe(octets) == octets);
}

/// The decimal writing of a number holds digits only, at least one, and
/// they write this number.
proof fn lemme_ecriture_chiffres(n: nat)
    ensures
        ecriture_decimale(n).len() > 0,
        tous_chiffres(codes_ascii(ecriture_decimale(n))),
        valeur_decimale(codes_ascii(ecriture_decimale(n))) == n,
    decreases n,
{
    let octets = codes_ascii(ecriture_decimale(n));
    if n < 10 {
        assert(octets.drop_last().len() == 0);
        assert(octets.last() == caractere_chiffre(n) as u8);
        assert(valeur_decimale(octets.drop_last()) == 0);
    } else {
        lemme_ecriture_chiffres(n / 10);
        let avant = codes_ascii(ecriture_decimale(n / 10));
        assert(octets.drop_last() =~= avant);
        assert(octets.last() == caractere_chiffre(n % 10) as u8);
        assert forall|i: int| 0 <= i < octets.len() implies est_chiffre(#[trigger] octets[i]) by {
            if i < avant.len() {
                assert(octets[i] == avant[i]);
            }
        }
    }
}

/// Whether `texte` ends with `fin`.
pub open spec fn finit_par(texte: Seq<char>, fin: Seq<char>) -> bool {
    texte.len() >= fin.len() && texte.subrange(texte.len() - fin.len(), texte.len() as int) == fin
}

/// Tells whether `texte` ends with `fin`.
pub fn termine_par(texte: &str, fin: &str) -> (r: bool)
    ensures
        r == finit_par(texte@, fin@),
{
    let n: usize = texte.unicode_len();
    let m: usize = fin.unicode_len();
    if n < m {
        return false;
    }
    let decalage: usize = n - m;
    let ghost queue = texte@.subrange(decalage as int, n as int);
    let mut i: usize = 0;
    while i < m
        invariant
            0 <= i <= m,
            n == texte@.len(),
            m == fin@.len(),
            decalage == n - m,
            queue == texte@.subrange(decalage as int, n as int),
            forall|k: int| 0 <= k < i ==> queue[k] == fin@[k],
        decreases m - i,
    {
        let a: char = texte.get_char(decalage + i);
        let b: char = fin.get_char(i);
        if a != b {
            assert(queue[i as int] != fin@[i as int]);
            return false;
        }
        i = i + 1;
    }
    assert(queue =~= fin@);
    true
}

/// Tells whether two texts hold the same characters.
pub fn textes_egaux(a: &str, b: &str) -> (r: bool)
    ensures
        r == (a@ == b@),
{
    let n: usize = a.unicode_len();
    let m: usize = b.unicode_len();
    if n != m {
        return false;
    }
    let fin = termine_par(a, b);
    proof {
        assert(a@.subrange(0, n as int) =~= a@);
    }
    fin
}

} // verus!
