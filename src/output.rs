use vstd::prelude::*;
use vstd::utf8::{decode_utf8, encode_utf8, encode_utf8_decode_utf8, encode_utf8_valid_utf8, valid_utf8};

verus! {

/// Outcome of formatting one input.
#[derive(Clone, Debug, PartialEq, Eq)]
pub enum FormatResult {
    Formatted(String),
    Failed(String),
}

/// The engine's output broke its own contract.
#[derive(Clone, Copy, Debug, PartialEq, Eq, Structural)]
pub enum OutputError {
    /// The output does not start with the engine's fixed preamble.
    MissingPreamble,
    /// The output past the preamble is not UTF-8.
    InvalidUtf8,
}

pub const PREAMBLE_LEN: usize = 8;

/// The bytes of `"stdin:\n\n"`, which the engine writes before the formatted text.
pub open spec fn preamble() -> Seq<u8> {
    seq![115u8, 116u8, 100u8, 105u8, 110u8, 58u8, 10u8, 10u8]
}

/// What the caller receives for raw engine output `bytes`.
pub open spec fn stripped_output(bytes: Seq<u8>) -> Result<Seq<char>, OutputError> {
    if bytes.len() < PREAMBLE_LEN || bytes.take(PREAMBLE_LEN as int) != preamble() {
        Err(OutputError::MissingPreamble)
    } else if !valid_utf8(bytes.skip(PREAMBLE_LEN as int)) {
        Err(OutputError::InvalidUtf8)
    } else {
        Ok(decode_utf8(bytes.skip(PREAMBLE_LEN as int)))
    }
}

/// Relies on std::str::from_utf8: `Ok` exactly when the bytes are valid UTF-8,
/// holding the text they encode.
#[verifier::external_body]
fn decode_text(bytes: &[u8]) -> (r: Option<String>)
    ensures
        r is Some <==> valid_utf8(bytes@),
        r matches Some(s) ==> s@ == decode_utf8(bytes@),
{
    std::str::from_utf8(bytes).ok().map(|s| s.to_string())
}

fn starts_with_preamble(bytes: &Vec<u8>) -> (r: bool)
    ensures
        r == (bytes@.len() >= PREAMBLE_LEN && bytes@.take(PREAMBLE_LEN as int) == preamble()),
{
    if bytes.len() < PREAMBLE_LEN {
        return false;
    }
    let ok = bytes[0] == 115u8 && bytes[1] == 116u8 && bytes[2] == 100u8 && bytes[3] == 105u8
        && bytes[4] == 110u8 && bytes[5] == 58u8 && bytes[6] == 10u8 && bytes[7] == 10u8;
    assert(ok == (bytes@.take(8) =~= preamble()));
    ok
}

/// Turns what the engine produced into the caller's result: an engine error
/// becomes `Failed` with its message unchanged; engine output loses exactly
/// its fixed preamble, counted in bytes.
pub fn finish_output(raw: Result<Vec<u8>, String>) -> (r: Result<FormatResult, OutputError>)
    ensures
        raw matches Err(m) ==> (r matches Ok(FormatResult::Failed(m2)) && m2@ == m@),
        raw matches Ok(b) ==> match stripped_output(b@) {
            Ok(t) => r matches Ok(FormatResult::Formatted(t2)) && t2@ == t,
            Err(e) => r == Err::<FormatResult, OutputError>(e),
        },
{
    match raw {
        Err(m) => Ok(FormatResult::Failed(m)),
        Ok(bytes) => {
            if !starts_with_preamble(&bytes) {
                return Err(OutputError::MissingPreamble);
            }
            let mut rest: Vec<u8> = Vec::new();
            let mut i: usize = PREAMBLE_LEN;
            while i < bytes.len()
                invariant
                    PREAMBLE_LEN <= i <= bytes@.len(),
                    rest@ == bytes@.subrange(PREAMBLE_LEN as int, i as int),
                decreases bytes@.len() - i,
            {
                rest.push(bytes[i]);
                i = i + 1;
            }
            assert(rest@ =~= bytes@.skip(PREAMBLE_LEN as int));
            match decode_text(rest.as_slice()) {
                Some(text) => Ok(FormatResult::Formatted(text)),
                None => Err(OutputError::InvalidUtf8),
            }
        },
    }
}

/// Engine output made of the preamble followed by the encoding of any text
/// comes back as exactly that text.
pub proof fn lemma_preamble_round_trip(text: Seq<char>)
    ensures
        stripped_output(preamble() + encode_utf8(text)) == Ok::<Seq<char>, OutputError>(text),
{
    let bytes = preamble() + encode_utf8(text);
    assert(bytes.take(PREAMBLE_LEN as int) =~= preamble());
    assert(bytes.skip(PREAMBLE_LEN as int) =~= encode_utf8(text));
    encode_utf8_valid_utf8(text);
    encode_utf8_decode_utf8(text);
}

} // verus!
