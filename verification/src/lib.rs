//! Integrity and authenticity checks for a downloaded artifact.
//!
//! An artifact is accepted when its SHA-512 digest, written in lowercase
//! hexadecimal, equals a published string, and when a detached OpenPGP
//! signature over it is valid under a given public key.

pub mod digest;
pub mod hex_text;
pub mod signature;
pub mod verdict;

pub use digest::{digest_hex, hex_matches, verify_file_sha512, verify_file_sha512_internal};
pub use signature::{
    judge_check, judge_key, judge_signature_packet, same_bytes, verify_gpg_signature,
    verify_gpg_signature_internal, EngineFault, VerifyError,
};
pub use verdict::{
    combine_checks, verify_artifact, verify_loaded_artifact, FailReason, SignatureFinding,
    VerificationVerdict,
};
