use attested_rpc::types::EnclaveMeasurement;
use attested_rpc::types::EnclaveStatus;
use attested_rpc::types::ParseError;
use attested_rpc::types::UntrustedStatus;
use attested_rpc::types::from_hex;

#[test]
fn test_status_default_is_success() {
    let s = EnclaveStatus::default();
    assert_eq!(s.0, 0);
    assert!(!s.is_err());
}

#[test]
fn test_status_nonzero_is_err() {
    assert!(EnclaveStatus(1).is_err());
    assert!(EnclaveStatus(0x0000_000c).is_err());
    assert!(!EnclaveStatus(0).is_err());
    let u: UntrustedStatus = EnclaveStatus(3);
    assert!(u.is_err());
}

#[test]
fn test_status_ffi_outbuf() {
    assert!(EnclaveStatus(0x0000_000c).is_err_ffi_outbuf());
    assert!(!EnclaveStatus(0x0000_000b).is_err_ffi_outbuf());
    assert!(!EnclaveStatus(0).is_err_ffi_outbuf());
}

#[test]
fn test_from_hex_exact() {
    let hex: String = (0u8..32).map(|b| format!("{:02x}", b)).collect();
    let m = from_hex(&hex).expect("well-formed hex");
    let expected: Vec<u8> = (0u8..32).collect();
    assert_eq!(m.to_vec(), expected);
}

#[test]
fn test_from_hex_mixed_case() {
    let hex = "FFeeDDccBBaa99887766554433221100ffEEddCCbbAA99887766554433221100";
    let m = from_hex(hex).expect("well-formed hex");
    assert_eq!(m[0], 0xff);
    assert_eq!(m[1], 0xee);
    assert_eq!(m[15], 0x00);
    assert_eq!(m[16], 0xff);
    assert_eq!(m[31], 0x00);
}

#[test]
fn test_from_hex_rejects_odd_length() {
    let hex: String = "0".repeat(65);
    assert_eq!(from_hex(&hex), Err(ParseError::Invalid));
}

#[test]
fn test_from_hex_rejects_non_digit() {
    let hex: String = format!("zz{}", "0".repeat(62));
    assert_eq!(from_hex(&hex), Err(ParseError::Invalid));
}

#[test]
fn test_measurement_new_keeps_fields() {
    let enclave = [7u8; 32];
    let signer = [9u8; 32];
    let m = EnclaveMeasurement::new(enclave, signer);
    assert_eq!(m.mr_enclave, enclave);
    assert_eq!(m.mr_signer, signer);
}
