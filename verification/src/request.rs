//! The key request: what the platform is asked to derive a sealing key for.
//!
//! A request names the key class, the policy that binds the key, the
//! versions of the enclave and of the platform, and a 32-byte key
//! identifier. The numbers of the key class and of the policy bits are those
//! of the `sgx_isa` crate.

use sgx_isa::{Keyname, Keypolicy};
use vstd::prelude::*;

verus! {

/// The key class of sealing keys.
pub const KEYNAME_SEAL: u16 = 4;

/// The policy bit that binds a key to the measurement of the enclave.
pub const KEYPOLICY_MRENCLAVE: u16 = 1;

/// The policy bit that binds a key to the signer of the enclave, whatever
/// the enclave measures to.
pub const KEYPOLICY_MRSIGNER: u16 = 2;

/// Every policy bit that has a meaning: the two above.
pub const KEYPOLICY_KNOWN: u16 = 3;

/// Whether `bits` hold no policy bit without a meaning. The two bits that
/// have one are the lowest, so this is to say that the number is at most 3.
pub open spec fn keypolicy_known(bits: u16) -> bool {
    bits <= KEYPOLICY_KNOWN
}

/// Reads `Keyname::Seal` of `sgx_isa` as a number.
///
/// Believed of it: the number is 4.
#[verifier::external_body]
pub(crate) fn keyname_seal() -> (name: u16)
    ensures
        name == KEYNAME_SEAL,
{
    Keyname::Seal as u16
}

/// Calls `Keypolicy::bits` of `sgx_isa` on `Keypolicy::MRSIGNER`.
///
/// Believed of it: the bits are 2.
#[verifier::external_body]
pub(crate) fn keypolicy_mrsigner() -> (bits: u16)
    ensures
        bits == KEYPOLICY_MRSIGNER,
{
    Keypolicy::MRSIGNER.bits()
}

/// Calls `Keypolicy::from_bits` of `sgx_isa` and says whether it returned a
/// policy.
///
/// Believed of it: it returns one unless a bit other than the two policy
/// bits is set.
#[verifier::external_body]
pub(crate) fn keypolicy_from_bits(bits: u16) -> (known: bool)
    ensures
        known == keypolicy_known(bits),
{
    Keypolicy::from_bits(bits).is_some()
}

/// A key request.
#[derive(Clone, Copy, Debug, PartialEq, Eq)]
pub struct KeyRequest {
    /// The key class.
    pub keyname: u16,
    /// The policy bits.
    pub keypolicy: u16,
    /// The version of the enclave.
    pub isvsvn: u16,
    /// The version of the platform.
    pub cpusvn: [u8; 16],
    /// The key identifier.
    pub keyid: [u8; 32],
}

/// A key request as contracts see it.
pub struct KeyRequestView {
    pub keyname: u16,
    pub keypolicy: u16,
    pub isvsvn: u16,
    pub cpusvn: Seq<u8>,
    pub keyid: Seq<u8>,
}

impl View for KeyRequest {
    type V = KeyRequestView;

    open spec fn view(&self) -> KeyRequestView {
        KeyRequestView {
            keyname: self.keyname,
            keypolicy: self.keypolicy,
            isvsvn: self.isvsvn,
            cpusvn: self.cpusvn@,
            keyid: self.keyid@,
        }
    }
}

/// The request for the sealing key of an enclave at the given versions:
/// key class "Seal", bound to the signer, with the key identifier as given.
pub open spec fn seal_request(isvsvn: u16, cpusvn: Seq<u8>, keyid: Seq<u8>) -> KeyRequestView {
    KeyRequestView {
        keyname: KEYNAME_SEAL,
        keypolicy: KEYPOLICY_MRSIGNER,
        isvsvn,
        cpusvn,
        keyid,
    }
}

/// Whether a stored request may be replayed: it asks for a sealing key and
/// holds no unknown policy bit.
pub open spec fn replayable(request: KeyRequestView) -> bool {
    request.keyname == KEYNAME_SEAL && keypolicy_known(request.keypolicy)
}

/// Builds the request for the sealing key of an enclave whose versions are
/// `isvsvn` and `cpusvn`. The key is bound to the signer of the enclave, so
/// that a later version from the same signer derives it too.
pub fn seal_key_request(isvsvn: u16, cpusvn: [u8; 16], keyid: [u8; 32]) -> (request: KeyRequest)
    ensures
        request@ == seal_request(isvsvn, cpusvn@, keyid@),
{
    KeyRequest {
        keyname: keyname_seal(),
        keypolicy: keypolicy_mrsigner(),
        isvsvn,
        cpusvn,
        keyid,
    }
}

/// A request for a sealing key can be replayed.
pub proof fn lemma_seal_request_replayable(isvsvn: u16, cpusvn: Seq<u8>, keyid: Seq<u8>)
    ensures
        replayable(seal_request(isvsvn, cpusvn, keyid)),
{
}

} // verus!
