use attested_rpc::ipc::ECallCommand;
use attested_rpc::ipc::EcallReceiver;
use attested_rpc::ipc::InProcessBinder;
use attested_rpc::ipc::IpcReceiver;
use attested_rpc::ipc::StartServiceHandler;
use attested_rpc::ipc::IpcError;
use attested_rpc::ipc::IpcSender;
use attested_rpc::ipc::StartServiceInput;
use attested_rpc::ipc::StartServiceOutput;
use attested_rpc::ipc::InitEnclaveInput;
use attested_rpc::ipc::InitEnclaveOutput;
use attested_rpc::ipc::FinalizeEnclaveInput;
use attested_rpc::ipc::FinalizeEnclaveOutput;
use attested_rpc::ipc::STATUS_DESERIALIZATION_ERROR;
use attested_rpc::ipc::STATUS_SUCCESS;
use attested_rpc::ipc::STATUS_UNKNOWN_COMMAND;
use attested_rpc::ipc::decode_invoke_output;
use attested_rpc::ipc::ecall_entry;
use attested_rpc::ipc::encode_invoke_input;
use attested_rpc::message::Message;
use attested_rpc::types::EnclaveStatus;

#[test]
fn test_unknown_command_rejected() {
    // An identifier absent from the registry: nonzero status, empty output,
    // no handler ever runs.
    let (status, out) = ecall_entry(99, &[]);
    assert_eq!(status.0, STATUS_UNKNOWN_COMMAND);
    assert!(status.is_err());
    assert!(out.is_empty());
}

#[test]
fn test_malformed_boundary_payload() {
    // Command id 7 is registered and expects a two-field input; a payload
    // carrying only one field is rejected before any handler logic.
    let one_field: Vec<u8> = 1u64.to_be_bytes().to_vec();
    assert_eq!(one_field.len(), 8);
    let (status, out) = ecall_entry(7, &one_field);
    assert_eq!(status.0, STATUS_DESERIALIZATION_ERROR);
    assert!(status.is_err());
    assert!(out.is_empty());
}

#[test]
fn test_start_service_invoke_round_trip() {
    let input = StartServiceInput { fd_api: 3, fd_internal: 4 };
    let (cmd, payload) = encode_invoke_input(ECallCommand::StartService, &input);
    assert_eq!(cmd, 7);
    let (status, out) = ecall_entry(cmd, &payload);
    assert_eq!(status.0, STATUS_SUCCESS);
    let decoded: Result<StartServiceOutput, IpcError> =
        decode_invoke_output(status, &out);
    assert!(decoded.is_ok());
}

#[test]
fn test_lifecycle_commands_dispatch() {
    let (cmd, payload) = encode_invoke_input(ECallCommand::InitEnclave, &InitEnclaveInput {});
    assert_eq!(cmd, 1);
    let (status, out) = ecall_entry(cmd, &payload);
    assert_eq!(status.0, STATUS_SUCCESS);
    let decoded: Result<InitEnclaveOutput, IpcError> = decode_invoke_output(status, &out);
    assert!(decoded.is_ok());

    let (cmd, payload) =
        encode_invoke_input(ECallCommand::FinalizeEnclave, &FinalizeEnclaveInput {});
    assert_eq!(cmd, 2);
    let (status, out) = ecall_entry(cmd, &payload);
    assert_eq!(status.0, STATUS_SUCCESS);
    let decoded: Result<FinalizeEnclaveOutput, IpcError> = decode_invoke_output(status, &out);
    assert!(decoded.is_ok());
}

#[test]
fn test_lifecycle_rejects_nonempty_payload() {
    let (status, out) = ecall_entry(1, &[0u8]);
    assert_eq!(status.0, STATUS_DESERIALIZATION_ERROR);
    assert!(out.is_empty());
}

#[test]
fn test_boundary_failure_is_surfaced() {
    let r: Result<StartServiceOutput, IpcError> =
        decode_invoke_output(EnclaveStatus(5), &[]);
    assert_eq!(r.unwrap_err(), IpcError::BoundaryFailure(5));
}

#[test]
fn test_output_deserialization_error() {
    let r: Result<StartServiceOutput, IpcError> =
        decode_invoke_output(EnclaveStatus(0), &[1, 2, 3]);
    assert_eq!(r.unwrap_err(), IpcError::DeserializationError);
}

#[test]
fn test_in_process_invoke() {
    let mut binder = InProcessBinder {};
    let ok: Result<StartServiceOutput, IpcError> =
        binder.invoke(7, StartServiceInput { fd_api: 1, fd_internal: 2 });
    assert!(ok.is_ok());
    let unknown: Result<StartServiceOutput, IpcError> =
        binder.invoke(99, StartServiceInput { fd_api: 1, fd_internal: 2 });
    assert_eq!(unknown.unwrap_err(), IpcError::BoundaryFailure(STATUS_UNKNOWN_COMMAND));
}

#[test]
fn test_receiver_dispatch_gate() {
    let payload = StartServiceInput { fd_api: 1, fd_internal: 2 }.encode();
    let out = EcallReceiver::dispatch::<StartServiceInput, StartServiceOutput, StartServiceHandler>(
        &payload,
        StartServiceHandler {},
    );
    assert_eq!(out.unwrap(), Vec::<u8>::new());

    let short = vec![0u8; 8];
    let err = EcallReceiver::dispatch::<StartServiceInput, StartServiceOutput, StartServiceHandler>(
        &short,
        StartServiceHandler {},
    );
    assert_eq!(err.unwrap_err(), IpcError::DeserializationError);
}

#[test]
fn test_command_codes_round_trip() {
    for cmd in [
        ECallCommand::StartService,
        ECallCommand::InitEnclave,
        ECallCommand::FinalizeEnclave,
    ] {
        assert_eq!(ECallCommand::from_code(cmd.code()), Some(cmd));
    }
    assert_eq!(ECallCommand::from_code(0), None);
    assert_eq!(ECallCommand::from_code(3), None);
}

#[test]
fn test_start_service_input_encoding() {
    // One exact encoding: two eight-byte big-endian fields.
    let input = StartServiceInput { fd_api: 0x0102030405060708, fd_internal: 1 };
    let bytes = input.encode();
    assert_eq!(
        bytes,
        vec![1u8, 2, 3, 4, 5, 6, 7, 8, 0, 0, 0, 0, 0, 0, 0, 1]
    );
    let back = StartServiceInput::decode(&bytes).expect("round trip");
    assert_eq!(back.fd_api, 0x0102030405060708);
    assert_eq!(back.fd_internal, 1);
    assert_eq!(StartServiceInput::decode(&bytes[..15]).map(|m| m.fd_api), None);
}
