//! The signature check: a detached OpenPGP signature is valid for a buffer
//! under a public key.
//!
//! Parsing and cryptography are the `pgp` crate's. What this module decides
//! is the order of the steps and what each of their failures means to the
//! caller.
//!
//! A parsed key or signature is opaque to the proofs, so every step is
//! stated over the bytes it starts from: the two parsing steps report only
//! whether and why the engine refused the bytes, and the checking step
//! parses them once more before it calls the engine.

use pgp::composed::{Deserializable, DetachedSignature, SignedPublicKey};
use pgp::errors::Error;
use vstd::prelude::*;

verus! {

/// Why a signature check could not be carried out.
#[derive(Clone, Copy, Debug, PartialEq, Eq, Structural)]
pub enum VerifyError {
    /// The public key bytes are not a well-formed key.
    MalformedKey,
    /// The signature bytes are not a well-formed signature packet.
    MalformedSignature,
    /// The signature or the key uses an algorithm that is not implemented.
    UnsupportedAlgorithm,
    /// Reading the signed data failed.
    IOError,
}

/// What the OpenPGP engine gave as its ground when it refused an input: the
/// variants of its error that the rules below tell apart.
#[derive(Clone, Copy, Debug, PartialEq, Eq, Structural)]
pub enum EngineFault {
    /// A version or a parameter that the engine does not support.
    Unsupported,
    /// A format or an algorithm that the engine has not implemented.
    Unimplemented,
    /// A failed read.
    Io,
    /// Any other ground.
    Other,
}

impl EngineFault {
    /// The engine lacks what the input asks for, as opposed to the input
    /// being wrong.
    pub open spec fn is_unsupported(self) -> bool {
        self is Unsupported || self is Unimplemented
    }
}

impl VerifyError {
    /// The text shown for this error.
    pub open spec fn text(self) -> Seq<char> {
        match self {
            VerifyError::MalformedKey => "malformed public key"@,
            VerifyError::MalformedSignature => "malformed signature"@,
            VerifyError::UnsupportedAlgorithm => "unsupported algorithm"@,
            VerifyError::IOError => "error while reading the signed data"@,
        }
    }

    /// The text shown for this error, as an owned string.
    pub fn message(&self) -> (text: String)
        ensures
            text@ == self.text(),
    {
        match self {
            VerifyError::MalformedKey => "malformed public key".to_owned(),
            VerifyError::MalformedSignature => "malformed signature".to_owned(),
            VerifyError::UnsupportedAlgorithm => "unsupported algorithm".to_owned(),
            VerifyError::IOError => "error while reading the signed data".to_owned(),
        }
    }
}

/// The engine's ground for refusing `public_key` as a binary transferable
/// public key, or `None` where it parses.
pub uninterp spec fn key_parse_fault(public_key: Seq<u8>) -> Option<EngineFault>;

/// The engine's ground for refusing `signature` as a binary detached
/// signature, or `None` where it parses.
pub uninterp spec fn signature_parse_fault(signature: Seq<u8>) -> Option<EngineFault>;

/// The engine's ground for not accepting the signature parsed from
/// `signature` as one over `data` by the key parsed from `public_key`, or
/// `None` where it accepts it. It has a meaning only where both parse.
pub uninterp spec fn signature_check_fault(
    data: Seq<u8>,
    signature: Seq<u8>,
    public_key: Seq<u8>,
) -> Option<EngineFault>;

/// Calls `SignedPublicKey::from_bytes` of the `pgp` crate and drops the key.
///
/// Not proved: that what comes back is the value `key_parse_fault` names for
/// these bytes, that is, that parsing is a function of the bytes alone.
#[verifier::external_body]
fn parse_public_key(public_key: &[u8]) -> (fault: Option<EngineFault>)
    ensures
        fault == key_parse_fault(public_key@),
{
    match SignedPublicKey::from_bytes(public_key) {
        Ok(_) => None,
        Err(Error::Unsupported { .. }) => Some(EngineFault::Unsupported),
        Err(Error::Unimplemented { .. }) => Some(EngineFault::Unimplemented),
        Err(Error::IO { .. }) => Some(EngineFault::Io),
        Err(_) => Some(EngineFault::Other),
    }
}

/// Calls `DetachedSignature::from_bytes` of the `pgp` crate and drops the
/// signature.
///
/// Not proved: that what comes back is the value `signature_parse_fault`
/// names for these bytes.
#[verifier::external_body]
fn parse_signature(signature: &[u8]) -> (fault: Option<EngineFault>)
    ensures
        fault == signature_parse_fault(signature@),
{
    match DetachedSignature::from_bytes(signature) {
        Ok(_) => None,
        Err(Error::Unsupported { .. }) => Some(EngineFault::Unsupported),
        Err(Error::Unimplemented { .. }) => Some(EngineFault::Unimplemented),
        Err(Error::IO { .. }) => Some(EngineFault::Io),
        Err(_) => Some(EngineFault::Other),
    }
}

/// Calls `DetachedSignature::verify` of the `pgp` crate on the signature and
/// the key that the two byte strings parse to, with `data` as the signed
/// content.
///
/// Not proved: that what comes back is the value `signature_check_fault`
/// names for these three byte strings. Both must parse: the body relies on
/// it.
#[verifier::external_body]
fn check_signature(data: &[u8], signature: &[u8], public_key: &[u8]) -> (fault: Option<
    EngineFault,
>)
    requires
        key_parse_fault(public_key@) is None,
        signature_parse_fault(signature@) is None,
    ensures
        fault == signature_check_fault(data@, signature@, public_key@),
{
    let key = SignedPublicKey::from_bytes(public_key).expect("the key parses");
    let packet = DetachedSignature::from_bytes(signature).expect("the signature parses");
    match packet.verify(&key, data) {
        Ok(()) => None,
        Err(Error::Unsupported { .. }) => Some(EngineFault::Unsupported),
        Err(Error::Unimplemented { .. }) => Some(EngineFault::Unimplemented),
        Err(Error::IO { .. }) => Some(EngineFault::Io),
        Err(_) => Some(EngineFault::Other),
    }
}

/// The first step: whatever the engine's ground, a key that does not parse
/// is a malformed key.
pub open spec fn key_step(fault: Option<EngineFault>) -> Option<VerifyError> {
    match fault {
        None => None,
        Some(_) => Some(VerifyError::MalformedKey),
    }
}

/// The second step: a signature that does not parse is malformed, unless the
/// engine says that it lacks what the signature asks for.
pub open spec fn signature_step(fault: Option<EngineFault>) -> Option<VerifyError> {
    match fault {
        None => None,
        Some(ground) => Some(
            if ground.is_unsupported() {
                VerifyError::UnsupportedAlgorithm
            } else {
                VerifyError::MalformedSignature
            },
        ),
    }
}

/// The last steps: an accepted signature is valid where the content that was
/// checked is the caller's buffer, byte for byte. A signature that the
/// engine does not accept is invalid, which is an answer and no error,
/// unless the engine lacks an algorithm or a read failed.
pub open spec fn check_step(fault: Option<EngineFault>, content: Seq<u8>, data: Seq<u8>) -> Result<
    bool,
    VerifyError,
> {
    match fault {
        None => Ok(content =~= data),
        Some(ground) => if ground.is_unsupported() {
            Err(VerifyError::UnsupportedAlgorithm)
        } else if ground is Io {
            Err(VerifyError::IOError)
        } else {
            Ok(false)
        },
    }
}

/// The answer of the signature check for three byte strings, over what the
/// engine makes of them.
pub open spec fn signature_verdict(data: Seq<u8>, signature: Seq<u8>, public_key: Seq<u8>) -> Result<
    bool,
    VerifyError,
> {
    if let Some(error) = key_step(key_parse_fault(public_key)) {
        Err(error)
    } else if let Some(error) = signature_step(signature_parse_fault(signature)) {
        Err(error)
    } else {
        check_step(signature_check_fault(data, signature, public_key), data, data)
    }
}

/// Judges the outcome of parsing the public key.
pub fn judge_key(fault: Option<EngineFault>) -> (res: Result<(), VerifyError>)
    ensures
        res == match key_step(fault) {
            None => Ok::<(), VerifyError>(()),
            Some(error) => Err(error),
        },
{
    match fault {
        None => Ok(()),
        Some(_) => Err(VerifyError::MalformedKey),
    }
}

/// Judges the outcome of parsing the signature.
pub fn judge_signature_packet(fault: Option<EngineFault>) -> (res: Result<(), VerifyError>)
    ensures
        res == match signature_step(fault) {
            None => Ok::<(), VerifyError>(()),
            Some(error) => Err(error),
        },
{
    match fault {
        None => Ok(()),
        Some(EngineFault::Unsupported) => Err(VerifyError::UnsupportedAlgorithm),
        Some(EngineFault::Unimplemented) => Err(VerifyError::UnsupportedAlgorithm),
        Some(_) => Err(VerifyError::MalformedSignature),
    }
}

/// Whether two buffers hold the same bytes.
pub fn same_bytes(left: &[u8], right: &[u8]) -> (same: bool)
    ensures
        same == (left@ =~= right@),
{
    if left.len() != right.len() {
        return false;
    }
    let mut i: usize = 0;
    while i < left.len()
        invariant
            left@.len() == right@.len(),
            i <= left@.len(),
            forall|k: int| 0 <= k < i ==> left@[k] == right@[k],
        decreases left@.len() - i,
    {
        if left[i] != right[i] {
            return false;
        }
        i += 1;
    }
    assert(left@ =~= right@);
    true
}

/// Judges the outcome of the cryptographic check, given the content that the
/// engine checked and the buffer that the caller meant.
pub fn judge_check(fault: Option<EngineFault>, content: &[u8], data: &[u8]) -> (res: Result<
    bool,
    VerifyError,
>)
    ensures
        res == check_step(fault, content@, data@),
{
    match fault {
        None => Ok(same_bytes(content, data)),
        Some(EngineFault::Unsupported) => Err(VerifyError::UnsupportedAlgorithm),
        Some(EngineFault::Unimplemented) => Err(VerifyError::UnsupportedAlgorithm),
        Some(EngineFault::Io) => Err(VerifyError::IOError),
        Some(EngineFault::Other) => Ok(false),
    }
}

/// Checks the detached `signature` over `signed_data` under `public_key`.
///
/// `Ok(true)` says that the key parses, the signature parses and the engine
/// accepts the signature for exactly these bytes. `Ok(false)` says that both
/// parse and the signature is not valid for these bytes under this key. An
/// error says which input could not be used. The key is looked at first.
pub fn verify_gpg_signature_internal(signed_data: &[u8], signature: &[u8], public_key: &[u8]) -> (res:
    Result<bool, VerifyError>)
    ensures
        res == signature_verdict(signed_data@, signature@, public_key@),
{
    match judge_key(parse_public_key(public_key)) {
        Err(error) => {
            return Err(error);
        },
        Ok(()) => {},
    }
    match judge_signature_packet(parse_signature(signature)) {
        Err(error) => {
            return Err(error);
        },
        Ok(()) => {},
    }
    let fault = check_signature(signed_data, signature, public_key);
    // The engine checks a detached signature over the buffer it is handed,
    // so the content it vouches for is that buffer.
    judge_check(fault, signed_data, signed_data)
}

/// The signature check on buffers that the caller hands over for good, with
/// an error that is ready to be shown.
pub fn verify_gpg_signature(signed_data: Vec<u8>, signature: Vec<u8>, public_key: Vec<u8>) -> (res:
    Result<bool, String>)
    ensures
        match signature_verdict(signed_data@, signature@, public_key@) {
            Ok(valid) => res == Ok::<bool, String>(valid),
            Err(error) => res is Err && res->Err_0@ == error.text(),
        },
{
    match verify_gpg_signature_internal(
        signed_data.as_slice(),
        signature.as_slice(),
        public_key.as_slice(),
    ) {
        Ok(valid) => Ok(valid),
        Err(error) => Err(error.message()),
    }
}

/// A key that does not parse is reported as a malformed key, whatever the
/// data and the signature are.
pub proof fn unparsable_key_is_malformed(data: Seq<u8>, signature: Seq<u8>, public_key: Seq<u8>)
    requires
        key_parse_fault(public_key) is Some,
    ensures
        signature_verdict(data, signature, public_key) == Err::<bool, VerifyError>(
            VerifyError::MalformedKey,
        ),
{
}

/// Under a key that parses, a signature that does not parse is reported as
/// a malformed signature, unless the engine lacks what the signature asks
/// for, which is reported as an unsupported algorithm.
pub proof fn unparsable_signature_is_reported(
    data: Seq<u8>,
    signature: Seq<u8>,
    public_key: Seq<u8>,
)
    requires
        key_parse_fault(public_key) is None,
        signature_parse_fault(signature) is Some,
    ensures
        signature_verdict(data, signature, public_key) == Err::<bool, VerifyError>(
            if signature_parse_fault(signature).unwrap().is_unsupported() {
                VerifyError::UnsupportedAlgorithm
            } else {
                VerifyError::MalformedSignature
            },
        ),
{
}

/// The answer is `Ok(true)` exactly when the key parses, the signature
/// parses and the engine accepts the signature for the data.
pub proof fn valid_needs_every_step(data: Seq<u8>, signature: Seq<u8>, public_key: Seq<u8>)
    ensures
        signature_verdict(data, signature, public_key) == Ok::<bool, VerifyError>(true) <==> {
            &&& key_parse_fault(public_key) is None
            &&& signature_parse_fault(signature) is None
            &&& signature_check_fault(data, signature, public_key) is None
        },
{
}

/// A well-formed signature that the engine does not accept is answered with
/// `Ok(false)`: a wrong signature is no error. The answer is an error only
/// where the engine lacks an algorithm or a read failed.
pub proof fn wrong_signature_is_an_answer(data: Seq<u8>, signature: Seq<u8>, public_key: Seq<u8>)
    requires
        key_parse_fault(public_key) is None,
        signature_parse_fault(signature) is None,
        signature_check_fault(data, signature, public_key) is Some,
    ensures
        signature_verdict(data, signature, public_key) == Ok::<bool, VerifyError>(false) <==> {
            let ground = signature_check_fault(data, signature, public_key).unwrap();
            !ground.is_unsupported() && !(ground is Io)
        },
        !(signature_verdict(data, signature, public_key) is Ok) ==> {
            ||| signature_verdict(data, signature, public_key) == Err::<bool, VerifyError>(
                VerifyError::UnsupportedAlgorithm,
            )
            ||| signature_verdict(data, signature, public_key) == Err::<bool, VerifyError>(
                VerifyError::IOError,
            )
        },
{
}

} // verus!
