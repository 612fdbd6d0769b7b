//! The addresses of the requests made to a remote relay and to the local
//! storage, and the compressed body of a posted message.

use vstd::prelude::*;
use vstd::string::*;
use crate::texte::{ajouter_decimal, ecriture_decimale};

verus! {

/// Address to which a whole message is posted on the endpoint at `base`.
pub open spec fn adresse_poster(base: Seq<char>) -> Seq<char> {
    base + "/poster"@
}

/// Address that receives the part of the attachment `fuuid` that begins at
/// byte `position`, on the endpoint at `base`.
pub open spec fn adresse_part(base: Seq<char>, fuuid: Seq<char>, position: u64) -> Seq<char> {
    base + "/poster/"@ + fuuid + "/"@ + ecriture_decimale(position as nat)
}

/// Address that receives the attachment `fuuid` in one request, and the
/// request that closes an upload in parts, on the endpoint at `base`.
pub open spec fn adresse_fichier(base: Seq<char>, fuuid: Seq<char>) -> Seq<char> {
    base + "/poster/"@ + fuuid
}

/// Path of the attachment `fuuid` on the local storage.
pub open spec fn chemin_local(fuuid: Seq<char>) -> Seq<char> {
    "/fichiers_transfert/"@ + fuuid
}

/// Writes the address to which a whole message is posted.
pub fn url_poster(base: &str) -> (r: String)
    ensures
        r@ == adresse_poster(base@),
{
    let mut url = String::from_str(base);
    url.append("/poster");
    url
}

/// Writes the address that receives one part of an attachment.
pub fn url_part(base: &str, fuuid: &str, position: u64) -> (r: String)
    ensures
        r@ == adresse_part(base@, fuuid@, position),
{
    let mut url = String::from_str(base);
    url.append("/poster/");
    url.append(fuuid);
    url.append("/");
    ajouter_decimal(&mut url, position);
    url
}

/// Writes the address that receives a whole attachment or closes an upload
/// in parts.
pub fn url_fichier(base: &str, fuuid: &str) -> (r: String)
    ensures
        r@ == adresse_fichier(base@, fuuid@),
{
    let mut url = String::from_str(base);
    url.append("/poster/");
    url.append(fuuid);
    url
}

/// Writes the path of an attachment on the local storage.
pub fn chemin_fichier_local(fuuid: &str) -> (r: String)
    ensures
        r@ == chemin_local(fuuid@),
{
    let mut chemin = String::from_str("/fichiers_transfert/");
    chemin.append(fuuid);
    chemin
}

/// The number that four bytes write, least significant byte first.
pub open spec fn petit_boutiste(octets: Seq<u8>) -> nat
    recommends
        octets.len() == 4,
{
    (octets[0] + 256 * octets[1] + 65536 * octets[2] + 16777216 * octets[3]) as nat
}

/// Whether `corps` is framed as a gzip member that holds `taille` bytes of
/// data: a header of ten bytes with the two magic bytes, the deflate method,
/// no optional field, no time and no extra flag, and a trailer of eight
/// bytes whose last four give the size of the data modulo 2^32. The tenth
/// byte of the header, which names the system, is left open.
pub open spec fn cadre_gzip(corps: Seq<u8>, taille: nat) -> bool {
    &&& corps.len() >= 18
    &&& corps[0] == 0x1f
    &&& corps[1] == 0x8b
    &&& corps[2] == 8
    &&& corps[3] == 0
    &&& corps[4] == 0
    &&& corps[5] == 0
    &&& corps[6] == 0
    &&& corps[7] == 0
    &&& corps[8] == 0
    &&& petit_boutiste(corps.subrange(corps.len() - 4, corps.len() as int)) == taille
        % 0x1_0000_0000
}

/// What `deflate::deflate_bytes_gzip` writes for `message` between the
/// header and the size of the data: the compressed data, then the four
/// bytes of the checksum of the message.
pub uninterp spec fn gzip_donnees(message: Seq<u8>) -> Seq<u8>;

/// Whether `corps` is the gzip member that the compressor writes for
/// `message`, on whatever system.
pub open spec fn est_gzip_de(corps: Seq<u8>, message: Seq<u8>) -> bool {
    &&& cadre_gzip(corps, message.len())
    &&& corps.subrange(10, corps.len() - 4) == gzip_donnees(message)
}

/// Calls `deflate::deflate_bytes_gzip`. Trusted: the result is a ten-byte
/// gzip header without optional field, time or extra flag, then
/// `gzip_donnees` of the message, which depends on the bytes of the message
/// alone, then the size of the message modulo 2^32, least significant byte
/// first. Nothing is claimed of the header's byte for the system, which
/// depends on the target of the build.
#[verifier::external_body]
pub(crate) fn deflate_gzip(message: &[u8]) -> (r: Vec<u8>)
    ensures
        cadre_gzip(r@, message@.len()),
        r@.subrange(10, r@.len() - 4) == gzip_donnees(message@),
{
    deflate::deflate_bytes_gzip(message)
}

/// Tells whether `corps` is framed as a gzip member that holds `taille`
/// bytes of data.
pub fn verifier_cadre_gzip(corps: &[u8], taille: usize) -> (r: bool)
    ensures
        r == cadre_gzip(corps@, taille as nat),
{
    let n: usize = corps.len();
    if n < 18 {
        return false;
    }
    if corps[0] != 0x1f || corps[1] != 0x8b || corps[2] != 8 || corps[3] != 0 {
        return false;
    }
    if corps[4] != 0 || corps[5] != 0 || corps[6] != 0 || corps[7] != 0 || corps[8] != 0 {
        return false;
    }
    let ghost fin = corps@.subrange(n - 4, n as int);
    let b0: u64 = corps[n - 4] as u64;
    let b1: u64 = corps[n - 3] as u64;
    let b2: u64 = corps[n - 2] as u64;
    let b3: u64 = corps[n - 1] as u64;
    assert(fin[0] == b0 && fin[1] == b1 && fin[2] == b2 && fin[3] == b3);
    let ecrit: u64 = b0 + 256 * b1 + 65536 * b2 + 16777216 * b3;
    let attendu: u64 = (taille as u64) % 0x1_0000_0000;
    ecrit == attendu
}

} // verus!
