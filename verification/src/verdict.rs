//! The verdict on an artifact: the digest check and the signature check,
//! combined. An artifact passes only when both checks pass.

use crate::digest::{digest_matches, verify_file_sha512_internal};
use crate::signature::{signature_verdict, verify_gpg_signature_internal, VerifyError};
use vstd::prelude::*;
use vstd::string::*;

verus! {

/// What the signature check found.
#[derive(Clone, Copy, Debug, PartialEq, Eq, Structural)]
pub enum SignatureFinding {
    /// The signature is valid for the artifact under the key.
    Valid,
    /// Key and signature are well formed, and the signature is not valid.
    Invalid,
    /// The check could not be carried out.
    Unchecked(VerifyError),
}

/// Why an artifact failed: the outcome of each of the two checks.
#[derive(Clone, Copy, Debug, PartialEq, Eq, Structural)]
pub struct FailReason {
    /// The digest equals the expected one.
    pub digest_matched: bool,
    /// The outcome of the signature check.
    pub signature: SignatureFinding,
}

/// The verdict on one artifact.
#[derive(Clone, Copy, Debug, PartialEq, Eq, Structural)]
pub enum VerificationVerdict {
    /// Both checks passed.
    Pass,
    /// At least one check did not pass.
    Fail(FailReason),
    /// The checks could not be run, for want of an input.
    Error(VerifyError),
}

impl SignatureFinding {
    /// The finding that stands for an answer of the signature check.
    pub open spec fn of(answer: Result<bool, VerifyError>) -> SignatureFinding {
        match answer {
            Ok(true) => SignatureFinding::Valid,
            Ok(false) => SignatureFinding::Invalid,
            Err(error) => SignatureFinding::Unchecked(error),
        }
    }

    /// The text shown for this finding.
    pub open spec fn text(self) -> Seq<char> {
        match self {
            SignatureFinding::Valid => "signature: valid"@,
            SignatureFinding::Invalid => "signature: not valid"@,
            SignatureFinding::Unchecked(error) => "signature: "@ + error.text(),
        }
    }
}

impl FailReason {
    /// A reason names at least one check that did not pass.
    pub open spec fn wf(self) -> bool {
        !(self.digest_matched && self.signature is Valid)
    }

    /// The text shown for this reason: the digest's part, then the
    /// signature's.
    pub open spec fn text(self) -> Seq<char> {
        (if self.digest_matched {
            "digest: matches"@
        } else {
            "digest: does not match"@
        }) + "; "@ + self.signature.text()
    }
}

impl VerificationVerdict {
    /// A failure carries a well-formed reason.
    pub open spec fn wf(self) -> bool {
        self matches VerificationVerdict::Fail(reason) ==> reason.wf()
    }

    /// The text of the status message: success for `Pass`, failure for all
    /// else.
    pub open spec fn status_text(self) -> Seq<char> {
        if self is Pass {
            "Verification successful!"@
        } else {
            "Verification failed. Please check your files."@
        }
    }

    /// The detail behind the status message: the outcome of each check.
    pub open spec fn reason_text(self) -> Seq<char> {
        match self {
            VerificationVerdict::Pass => "digest and signature verified"@,
            VerificationVerdict::Fail(reason) => reason.text(),
            VerificationVerdict::Error(error) => "not verified: "@ + error.text(),
        }
    }

    /// Whether the artifact passed both checks.
    pub fn passed(&self) -> (passed: bool)
        ensures
            passed == (self is Pass),
    {
        match self {
            VerificationVerdict::Pass => true,
            _ => false,
        }
    }

    /// The status message, as an owned string.
    pub fn status_message(&self) -> (text: String)
        ensures
            text@ == self.status_text(),
    {
        match self {
            VerificationVerdict::Pass => "Verification successful!".to_owned(),
            _ => "Verification failed. Please check your files.".to_owned(),
        }
    }

    /// The detail behind the status message, as an owned string.
    pub fn reason(&self) -> (text: String)
        ensures
            text@ == self.reason_text(),
    {
        match self {
            VerificationVerdict::Pass => "digest and signature verified".to_owned(),
            VerificationVerdict::Fail(reason) => {
                let digest_part = if reason.digest_matched {
                    "digest: matches".to_owned()
                } else {
                    "digest: does not match".to_owned()
                };
                let signature_part = match reason.signature {
                    SignatureFinding::Valid => "signature: valid".to_owned(),
                    SignatureFinding::Invalid => "signature: not valid".to_owned(),
                    SignatureFinding::Unchecked(error) => "signature: ".to_owned().concat(
                        error.message().as_str(),
                    ),
                };
                digest_part.concat("; ").concat(signature_part.as_str())
            },
            VerificationVerdict::Error(error) => "not verified: ".to_owned().concat(
                error.message().as_str(),
            ),
        }
    }
}

/// The verdict that two check results amount to: a pass where the digest
/// matched and the signature is valid, else a failure that records both
/// results.
pub open spec fn combined_verdict(
    digest_matched: bool,
    signature: Result<bool, VerifyError>,
) -> VerificationVerdict {
    if digest_matched && signature == Ok::<bool, VerifyError>(true) {
        VerificationVerdict::Pass
    } else {
        VerificationVerdict::Fail(
            FailReason { digest_matched, signature: SignatureFinding::of(signature) },
        )
    }
}

/// The verdict on an artifact, a published digest, a detached signature and
/// a public key.
pub open spec fn artifact_verdict(
    data: Seq<u8>,
    expected_digest_hex: Seq<char>,
    signature: Seq<u8>,
    public_key: Seq<u8>,
) -> VerificationVerdict {
    combined_verdict(
        digest_matches(data, expected_digest_hex),
        signature_verdict(data, signature, public_key),
    )
}

/// The bytes of an input that was read, `None` for one that could not be.
pub open spec fn loaded_bytes(input: Option<Vec<u8>>) -> Option<Seq<u8>> {
    match input {
        Some(bytes) => Some(bytes@),
        None => None,
    }
}

/// The characters of an input that was read, `None` for one that could not
/// be.
pub open spec fn loaded_text(input: Option<String>) -> Option<Seq<char>> {
    match input {
        Some(text) => Some(text@),
        None => None,
    }
}

/// The verdict where each input may be missing because it could not be
/// read: a missing input is an error, and nothing is checked.
pub open spec fn loaded_verdict(
    data: Option<Seq<u8>>,
    expected_digest_hex: Option<Seq<char>>,
    signature: Option<Seq<u8>>,
    public_key: Option<Seq<u8>>,
) -> VerificationVerdict {
    if data is Some && expected_digest_hex is Some && signature is Some && public_key is Some {
        artifact_verdict(
            data.unwrap(),
            expected_digest_hex.unwrap(),
            signature.unwrap(),
            public_key.unwrap(),
        )
    } else {
        VerificationVerdict::Error(VerifyError::IOError)
    }
}

/// Combines the results of the two checks into a verdict. An error of the
/// signature check is a failure that carries the error, never a fault of
/// its own.
pub fn combine_checks(digest_matched: bool, signature: Result<bool, VerifyError>) -> (verdict:
    VerificationVerdict)
    ensures
        verdict == combined_verdict(digest_matched, signature),
        verdict.wf(),
        !(verdict is Error),
{
    let finding = match signature {
        Ok(true) => SignatureFinding::Valid,
        Ok(false) => SignatureFinding::Invalid,
        Err(error) => SignatureFinding::Unchecked(error),
    };
    match finding {
        SignatureFinding::Valid => if digest_matched {
            VerificationVerdict::Pass
        } else {
            VerificationVerdict::Fail(FailReason { digest_matched, signature: finding })
        },
        _ => VerificationVerdict::Fail(FailReason { digest_matched, signature: finding }),
    }
}

/// Runs both checks on one artifact and combines them.
pub fn verify_artifact(
    data: &[u8],
    expected_digest_hex: &str,
    signature: &[u8],
    public_key: &[u8],
) -> (verdict: VerificationVerdict)
    ensures
        verdict == artifact_verdict(data@, expected_digest_hex@, signature@, public_key@),
        verdict.wf(),
        !(verdict is Error),
{
    let digest_matched = verify_file_sha512_internal(data, expected_digest_hex);
    let signature_valid = verify_gpg_signature_internal(data, signature, public_key);
    combine_checks(digest_matched, signature_valid)
}

/// Runs both checks on inputs as a reader handed them over, `None` standing
/// for an input that could not be read. With an input missing the verdict
/// is an error.
pub fn verify_loaded_artifact(
    data: Option<Vec<u8>>,
    expected_digest_hex: Option<String>,
    signature: Option<Vec<u8>>,
    public_key: Option<Vec<u8>>,
) -> (verdict: VerificationVerdict)
    ensures
        verdict == loaded_verdict(
            loaded_bytes(data),
            loaded_text(expected_digest_hex),
            loaded_bytes(signature),
            loaded_bytes(public_key),
        ),
        verdict.wf(),
{
    match (data, expected_digest_hex, signature, public_key) {
        (Some(data), Some(expected), Some(signature), Some(public_key)) => verify_artifact(
            data.as_slice(),
            expected.as_str(),
            signature.as_slice(),
            public_key.as_slice(),
        ),
        _ => VerificationVerdict::Error(VerifyError::IOError),
    }
}

/// An artifact passes exactly when its digest matched and its signature is
/// valid.
pub proof fn pass_needs_both_checks(digest_matched: bool, signature: Result<bool, VerifyError>)
    ensures
        combined_verdict(digest_matched, signature) is Pass <==> digest_matched && signature
            == Ok::<bool, VerifyError>(true),
{
}

/// An artifact passes exactly when the expected string is the published
/// form of its digest and the signature check answers that the signature is
/// valid.
pub proof fn artifact_passes_only_with_both_checks(
    data: Seq<u8>,
    expected_digest_hex: Seq<char>,
    signature: Seq<u8>,
    public_key: Seq<u8>,
)
    ensures
        artifact_verdict(data, expected_digest_hex, signature, public_key) is Pass <==> {
            &&& digest_matches(data, expected_digest_hex)
            &&& signature_verdict(data, signature, public_key) == Ok::<bool, VerifyError>(true)
        },
{
}

/// A signature that is well formed and not valid makes the artifact fail;
/// it is no error.
pub proof fn invalid_signature_is_a_failure(digest_matched: bool)
    ensures
        combined_verdict(digest_matched, Ok(false)) == VerificationVerdict::Fail(
            FailReason { digest_matched, signature: SignatureFinding::Invalid },
        ),
{
}

/// An error of the signature check makes the artifact fail, and the failure
/// carries the error.
pub proof fn signature_error_is_a_failure(digest_matched: bool, error: VerifyError)
    ensures
        combined_verdict(digest_matched, Err(error)) == VerificationVerdict::Fail(
            FailReason { digest_matched, signature: SignatureFinding::Unchecked(error) },
        ),
{
}

} // verus!
