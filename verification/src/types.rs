//! Boundary status codes and enclave measurements.
//!
//! A status is the integer a boundary crossing hands back beside its output
//! bytes: zero for success, anything else for a boundary-level failure.  A
//! measurement is the 32-byte hardware hash identifying an enclave image,
//! read from its hexadecimal form in configuration.

use vstd::prelude::*;

verus! {

/// Status of a call into the trusted side.
#[derive(Debug, Clone, Copy, PartialEq, Eq, Structural)]
pub struct EnclaveStatus(pub u32);

/// Status of a call out of the trusted side.
pub type UntrustedStatus = EnclaveStatus;

impl EnclaveStatus {
    /// The success status.
    pub fn default() -> (r: EnclaveStatus)
        ensures
            r.0 == 0,
    {
        EnclaveStatus(0)
    }

    /// Any nonzero status is a failure.
    pub fn is_err(&self) -> (r: bool)
        ensures
            r == (self.0 != 0),
    {
        match self.0 {
            0 => false,
            _ => true,
        }
    }

    /// Whether the failure is the host-side out-buffer shortage.
    pub fn is_err_ffi_outbuf(&self) -> (r: bool)
        ensures
            r == (self.0 == 0x0000_000c),
    {
        self.0 == 0x0000_000c
    }
}

/// A hardware measurement hash.
pub type SgxMeasurement = [u8; 32];

/// The two measurements identifying an enclave image: the signer's hash and
/// the enclave code's hash.
#[derive(Debug, Clone, Copy, PartialEq, Eq)]
pub struct EnclaveMeasurement {
    pub mr_signer: SgxMeasurement,
    pub mr_enclave: SgxMeasurement,
}

impl EnclaveMeasurement {
    pub fn new(mr_enclave: SgxMeasurement, mr_signer: SgxMeasurement) -> (r: Self)
        ensures
            r.mr_enclave == mr_enclave,
            r.mr_signer == mr_signer,
    {
        Self { mr_enclave, mr_signer }
    }
}

/// Failure to read a measurement from its textual form.
#[derive(Debug, Clone, Copy, PartialEq, Eq, Structural)]
pub enum ParseError {
    Invalid,
}

/// Whether `c` is a hexadecimal digit.
pub open spec fn is_hex_digit(c: char) -> bool {
    ||| 48 <= c as u32 <= 57
    ||| 97 <= c as u32 <= 102
    ||| 65 <= c as u32 <= 70
}

/// The value of the hexadecimal digit `c`.
pub open spec fn hex_val(c: char) -> u8 {
    if 48 <= c as u32 <= 57 {
        (c as u32 - 48) as u8
    } else if 97 <= c as u32 <= 102 {
        (c as u32 - 87) as u8
    } else {
        (c as u32 - 55) as u8
    }
}

/// Whether `s` is a well-formed hexadecimal string: an even number of
/// characters, all digits.
pub open spec fn hex_ok(s: Seq<char>) -> bool {
    &&& s.len() % 2 == 0
    &&& forall|i: int| 0 <= i < s.len() ==> is_hex_digit(#[trigger] s[i])
}

/// The bytes a well-formed hexadecimal string denotes, one byte per digit
/// pair, high digit first.
pub open spec fn hex_decoded(s: Seq<char>) -> Seq<u8> {
    Seq::new((s.len() / 2) as nat, |i: int| (hex_val(s[2 * i]) * 16 + hex_val(s[2 * i + 1])) as u8)
}

/// Relies on hex::decode: each pair of hexadecimal digits (either case)
/// becomes one byte; an odd length or a non-digit is rejected.
#[verifier::external_body]
fn hex_decode(s: &str) -> (r: Result<Vec<u8>, ParseError>)
    ensures
        r is Ok <==> hex_ok(s@),
        r matches Ok(v) ==> v@ == hex_decoded(s@),
        r matches Err(e) ==> e == ParseError::Invalid,
{
    hex::decode(s).map_err(|_| ParseError::Invalid)
}

/// Reads a measurement from its hexadecimal form: the first 32 decoded
/// bytes.  Strings denoting fewer than 32 bytes are outside the contract,
/// as the configuration format guarantees full-length hashes.
pub fn from_hex(s: &str) -> (r: Result<SgxMeasurement, ParseError>)
    requires
        hex_ok(s@) ==> hex_decoded(s@).len() >= 32,
    ensures
        r is Ok <==> hex_ok(s@),
        r matches Ok(m) ==> m@ == hex_decoded(s@).take(32),
        r matches Err(e) ==> e == ParseError::Invalid,
{
    let v = hex_decode(s)?;
    let mut m: SgxMeasurement = [0u8; 32];
    let mut i: usize = 0;
    while i < 32
        invariant
            i <= 32,
            v@.len() >= 32,
            forall|j: int| 0 <= j < i ==> m@[j] == v@[j],
        decreases 32 - i,
    {
        m[i] = v[i];
        i = i + 1;
    }
    proof {
        assert(m@ =~= hex_decoded(s@).take(32));
    }
    Ok(m)
}

} // verus!
