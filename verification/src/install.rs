//! Installation helpers that the lifecycle commands share.
use vstd::prelude::*;

use crate::app_server::endpoint_policy::{parse_semver, semver_parse};
use crate::error::ControllerError;
use crate::version::version_text;
use sha2::Digest;

verus! {

/// The error for a control socket that is missing or cannot be reached.
pub fn missing_control_socket_error() -> (error: ControllerError)
    ensures
        error == (ControllerError::InvalidData { field: "socket", reason: "missing or inaccessible" }),
{
    ControllerError::InvalidData { field: "socket", reason: "missing or inaccessible" }
}

/// The version text that a Codex build without a version displays.
pub const UNKNOWN_CODEX_VERSION: &'static str = "0.0.0+unknown";

/// The Codex version to report: `unknown` for the placeholder or for text that is not a
/// version, otherwise the version's canonical text.
pub open spec fn normalized_version_text(display: Seq<char>) -> Seq<char> {
    if display == UNKNOWN_CODEX_VERSION@ {
        "unknown"@
    } else {
        match semver_parse(display) {
            Some((major, minor, patch, pre, build)) => version_text(major, minor, patch, pre, build),
            None => "unknown"@,
        }
    }
}

pub fn normalized_codex_version(display: &str) -> (version: String)
    ensures
        version@ == normalized_version_text(display@),
{
    if display.to_owned() == UNKNOWN_CODEX_VERSION.to_owned() {
        return String::from_str("unknown");
    }
    match parse_semver(display) {
        Some(v) => v.to_text(),
        None => String::from_str("unknown"),
    }
}

/// The SHA-256 digest of the bytes, as `sha2::Sha256::digest` computes it.
pub uninterp spec fn sha256(bytes: Seq<u8>) -> Seq<u8>;

/// `sha2::Sha256::digest`: the digest of the bytes; 32 bytes.
#[verifier::external_body]
fn sha256_digest(bytes: &[u8]) -> (digest: Vec<u8>)
    ensures
        digest@ == sha256(bytes@),
        digest@.len() == 32,
{
    sha2::Sha256::digest(bytes).to_vec()
}

/// The lowercase hexadecimal digit of a value below 16.
pub open spec fn hex_digit(v: u8) -> char {
    if v < 10 { (48 + v) as char } else { (87 + v) as char }
}

/// Two lowercase hexadecimal digits per byte, high nibble first.
pub open spec fn hex_text(bytes: Seq<u8>) -> Seq<char>
    decreases bytes.len(),
{
    if bytes.len() == 0 {
        Seq::empty()
    } else {
        hex_text(bytes.drop_last()).push(hex_digit(bytes.last() / 16)).push(hex_digit(bytes.last() % 16))
    }
}

/// `hex::encode`: each byte as two lowercase hexadecimal digits, high nibble first.
#[verifier::external_body]
fn hex_encode(bytes: &[u8]) -> (text: String)
    ensures
        text@ == hex_text(bytes@),
{
    hex::encode(bytes)
}

/// The SHA-256 digest of the bytes in lowercase hexadecimal.
pub fn sha256_bytes(bytes: &[u8]) -> (text: String)
    ensures
        text@ == hex_text(sha256(bytes@)),
        text@.len() == 64,
{
    let digest = sha256_digest(bytes);
    let text = hex_encode(digest.as_slice());
    proof {
        lemma_hex_text_len(digest@);
    }
    text
}

pub proof fn lemma_hex_text_len(bytes: Seq<u8>)
    ensures
        hex_text(bytes).len() == 2 * bytes.len(),
    decreases bytes.len(),
{
    if bytes.len() > 0 {
        lemma_hex_text_len(bytes.drop_last());
    }
}

} // verus!
