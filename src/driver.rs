use vstd::prelude::*;

verus! {

/// The standard base64 alphabet: `A`-`Z`, `a`-`z`, `0`-`9`, `+`, `/`.
pub open spec fn b64_char(v: int) -> char {
    if v < 26 {
        (65 + v) as char
    } else if v < 52 {
        (71 + v) as char
    } else if v < 62 {
        (v - 4) as char
    } else if v == 62 {
        '+'
    } else {
        '/'
    }
}

/// The padded standard-alphabet base64 text of some bytes: four characters
/// for each three bytes, the last group padded with `=`.
pub open spec fn base64_text(b: Seq<u8>) -> Seq<char>
    decreases b.len(),
{
    let (x, y, z) = (b[0] as int, b[1] as int, b[2] as int);
    if b.len() == 0 {
        Seq::empty()
    } else if b.len() == 1 {
        seq![b64_char(x / 4), b64_char((x % 4) * 16), '=', '=']
    } else if b.len() == 2 {
        seq![b64_char(x / 4), b64_char((x % 4) * 16 + y / 16), b64_char((y % 16) * 4), '=']
    } else {
        seq![
            b64_char(x / 4),
            b64_char((x % 4) * 16 + y / 16),
            b64_char((y % 16) * 4 + z / 64),
            b64_char(z % 64),
        ].add(base64_text(b.skip(3)))
    }
}

/// Relies on base64's `STANDARD` engine `encode`: padded standard-alphabet
/// base64.
#[verifier::external_body]
pub fn base64_encode(data: &[u8]) -> (r: String)
    ensures
        r@ == base64_text(data@),
{
    base64::Engine::encode(&base64::engine::general_purpose::STANDARD, data)
}

/// Relies on base64's `STANDARD` engine `decode`. That engine demands
/// canonical padding and no trailing bits, so it accepts exactly the texts
/// `encode` produces and gives back the bytes they were made from.
#[verifier::external_body]
pub fn base64_decode(data: &str) -> (r: Option<Vec<u8>>)
    ensures
        r is Some <==> exists|b: Seq<u8>| data@ == base64_text(b),
        r matches Some(v) ==> (data@ == base64_text(v@) && forall|b: Seq<u8>|
            data@ == base64_text(b) ==> v@ == b),
{
    base64::Engine::decode(&base64::engine::general_purpose::STANDARD, data).ok()
}

/// The validation data handed to identity registration: the blob the
/// emulated routine produced, base64-encoded.
pub fn generate_validation_data(blob: &[u8]) -> (r: String)
    ensures
        r@ == base64_text(blob@),
        r@.len() == 4 * ((blob@.len() + 2) / 3),
        blob@.len() > 0 ==> r@.len() > 0,
{
    proof {
        lemma_base64_len(blob@);
    }
    base64_encode(blob)
}

/// Base64 text has four characters for each started group of three bytes.
pub proof fn lemma_base64_len(b: Seq<u8>)
    ensures
        base64_text(b).len() == 4 * ((b.len() + 2) / 3),
    decreases b.len(),
{
    if b.len() > 2 {
        lemma_base64_len(b.skip(3));
    }
}

} // verus!
