//! Cross-boundary dispatch: typed calls across the untrusted-host /
//! trusted-enclave boundary, routed by numeric command identifier.
//!
//! The trusted side keeps a fixed registry mapping each command identifier
//! to a decoder for its input type, a handler, and an encoder for its output
//! type; it is built once and never changes.  The dispatcher is the sole
//! gate between untrusted input and trusted handler code: an unknown
//! identifier is rejected with a nonzero status, and a payload is fully
//! decoded before any handler logic runs — a malformed payload never
//! reaches a handler.  The untrusted side serializes an input, crosses the
//! boundary through the host's opaque call primitive, and checks the status
//! before decoding the output.

use vstd::prelude::*;

use crate::bytes::lemma_u64_be_round_trip;
use crate::bytes::read_u64_be;
use crate::bytes::u64_be_bytes;
use crate::bytes::u64_from_be;
use crate::bytes::write_u64_be;
use crate::message::Message;
use crate::types::EnclaveStatus;

verus! {

/// Boundary-call failures as the caller sees them.
#[derive(Debug, Clone, Copy, PartialEq, Eq, Structural)]
pub enum IpcError {
    /// No handler is registered under the command identifier.
    UnknownCommand,
    /// The payload does not decode to the expected input type, or the
    /// returned bytes do not decode to the expected output type.
    DeserializationError,
    /// The boundary crossing itself reported the carried nonzero status.
    BoundaryFailure(u32),
}

/// Status a successful dispatch reports.
pub const STATUS_SUCCESS: u32 = 0;

/// Status reported for a command identifier with no registered handler.
pub const STATUS_UNKNOWN_COMMAND: u32 = 1;

/// Status reported when the payload does not decode to the input type.
pub const STATUS_DESERIALIZATION_ERROR: u32 = 2;

/// Trusted-side service behind the dispatcher: one decoded input value in,
/// one output value (or a failure) out.
pub trait IpcService<U: Message, V: Message>: Sized {
    /// The output value this service gives to an input value; `None` when
    /// the service fails on it.
    spec fn model(&self, input: U::V) -> Option<V::V>;

    fn handle_invoke(&self, input: U) -> (r: Result<V, IpcError>)
        ensures
            match r {
                Ok(v) => self.model(input@) == Some(v@),
                Err(_) => self.model(input@) is None,
            },
    ;
}

/// The decode-invoke-encode gate for one registry entry: decodes the raw
/// payload completely, invokes the handler exactly once on the decoded
/// value, and encodes the handler's output.  A payload that does not decode
/// fails here, before any handler logic.
pub fn dispatch<U: Message, V: Message, X: IpcService<U, V>>(input: &[u8], x: X) -> (r: Result<
    Vec<u8>,
    IpcError,
>)
    ensures
        match r {
            Ok(out) => {
                &&& U::dec(input@) matches Some(u)
                &&& x.model(u) matches Some(v)
                &&& out@ == V::enc(v)
            },
            Err(e) => match U::dec(input@) {
                Option::None => e == IpcError::DeserializationError,
                Option::Some(u) => x.model(u) is None,
            },
        },
{
    let u = match U::decode(input) {
        Some(u) => u,
        None => {
            return Err(IpcError::DeserializationError);
        },
    };
    match x.handle_invoke(u) {
        Ok(v) => Ok(v.encode()),
        Err(e) => Err(e),
    }
}

/// Callee side of a boundary crossing: dispatches a received byte buffer to
/// a typed service instance.
pub trait IpcReceiver: Sized {
    fn dispatch<U: Message, V: Message, X: IpcService<U, V>>(input: &[u8], x: X) -> Result<
        Vec<u8>,
        IpcError,
    >;
}

/// The trusted-side receiver: dispatching through it runs the verified
/// decode-invoke-encode gate.
#[derive(Debug)]
pub struct EcallReceiver {}

impl IpcReceiver for EcallReceiver {
    fn dispatch<U: Message, V: Message, X: IpcService<U, V>>(input: &[u8], x: X) -> Result<
        Vec<u8>,
        IpcError,
    > {
        crate::ipc::dispatch::<U, V, X>(input, x)
    }
}

/// The commands the trusted side registers.
#[derive(Debug, Clone, Copy, PartialEq, Eq, Structural)]
pub enum ECallCommand {
    StartService,
    InitEnclave,
    FinalizeEnclave,
}

/// The identifier each command travels under.
pub open spec fn cmd_code_spec(c: ECallCommand) -> u32 {
    match c {
        ECallCommand::StartService => 7,
        ECallCommand::InitEnclave => 1,
        ECallCommand::FinalizeEnclave => 2,
    }
}

/// The command registered under an identifier, if any.
pub open spec fn cmd_of_spec(code: u32) -> Option<ECallCommand> {
    if code == 7 {
        Some(ECallCommand::StartService)
    } else if code == 1 {
        Some(ECallCommand::InitEnclave)
    } else if code == 2 {
        Some(ECallCommand::FinalizeEnclave)
    } else {
        None
    }
}

/// Whether an identifier has a registered handler.
pub open spec fn registered(code: u32) -> bool {
    cmd_of_spec(code) is Some
}

impl ECallCommand {
    pub fn code(&self) -> (r: u32)
        ensures
            r == cmd_code_spec(*self),
    {
        match self {
            ECallCommand::StartService => 7,
            ECallCommand::InitEnclave => 1,
            ECallCommand::FinalizeEnclave => 2,
        }
    }

    pub fn from_code(code: u32) -> (r: Option<ECallCommand>)
        ensures
            r == cmd_of_spec(code),
    {
        if code == 7 {
            Some(ECallCommand::StartService)
        } else if code == 1 {
            Some(ECallCommand::InitEnclave)
        } else if code == 2 {
            Some(ECallCommand::FinalizeEnclave)
        } else {
            None
        }
    }
}

/// Every command's identifier maps back to the command: identifiers are
/// unique per registered handler.
pub proof fn lemma_cmd_code_round_trip(c: ECallCommand)
    ensures
        cmd_of_spec(cmd_code_spec(c)) == Some(c),
{
}

/// Input of the start-service command: the two pre-bound listener handles,
/// one for the public endpoint and one for the service-to-service endpoint.
#[derive(Debug)]
pub struct StartServiceInput {
    pub fd_api: u64,
    pub fd_internal: u64,
}

impl View for StartServiceInput {
    type V = (u64, u64);

    open spec fn view(&self) -> (u64, u64) {
        (self.fd_api, self.fd_internal)
    }
}

impl Message for StartServiceInput {
    open spec fn enc(v: (u64, u64)) -> Seq<u8> {
        u64_be_bytes(v.0) + u64_be_bytes(v.1)
    }

    open spec fn dec(b: Seq<u8>) -> Option<(u64, u64)> {
        if b.len() == 16 {
            Some((u64_from_be(b.subrange(0, 8)), u64_from_be(b.subrange(8, 16))))
        } else {
            None
        }
    }

    proof fn lemma_round_trip(v: (u64, u64)) {
        let b = Self::enc(v);
        lemma_u64_be_round_trip(v.0);
        lemma_u64_be_round_trip(v.1);
        assert(b.subrange(0, 8) =~= u64_be_bytes(v.0));
        assert(b.subrange(8, 16) =~= u64_be_bytes(v.1));
    }

    fn encode(&self) -> (r: Vec<u8>) {
        let mut r: Vec<u8> = Vec::new();
        write_u64_be(&mut r, self.fd_api);
        write_u64_be(&mut r, self.fd_internal);
        proof {
            assert(r@ =~= Self::enc(self@));
        }
        r
    }

    fn decode(b: &[u8]) -> (r: Option<Self>) {
        if b.len() != 16 {
            return None;
        }
        let v = crate::bytes::to_vec(b);
        let fd_api = read_u64_be(&v, 0);
        let fd_internal = read_u64_be(&v, 8);
        Some(StartServiceInput { fd_api, fd_internal })
    }
}

/// Output of the start-service command: a bare acknowledgement.
#[derive(Debug)]
pub struct StartServiceOutput {}

impl View for StartServiceOutput {
    type V = ();

    open spec fn view(&self) -> () {
        ()
    }
}

impl Message for StartServiceOutput {
    open spec fn enc(v: ()) -> Seq<u8> {
        Seq::empty()
    }

    open spec fn dec(b: Seq<u8>) -> Option<()> {
        if b.len() == 0 {
            Some(())
        } else {
            None
        }
    }

    proof fn lemma_round_trip(v: ()) {
    }

    fn encode(&self) -> (r: Vec<u8>) {
        let r: Vec<u8> = Vec::new();
        proof {
            assert(r@ =~= Seq::<u8>::empty());
        }
        r
    }

    fn decode(b: &[u8]) -> (r: Option<Self>) {
        if b.len() == 0 {
            Some(StartServiceOutput {})
        } else {
            None
        }
    }
}

/// Input of the enclave-initialization command.
#[derive(Debug)]
pub struct InitEnclaveInput {}

impl View for InitEnclaveInput {
    type V = ();

    open spec fn view(&self) -> () {
        ()
    }
}

impl Message for InitEnclaveInput {
    open spec fn enc(v: ()) -> Seq<u8> {
        Seq::empty()
    }

    open spec fn dec(b: Seq<u8>) -> Option<()> {
        if b.len() == 0 {
            Some(())
        } else {
            None
        }
    }

    proof fn lemma_round_trip(v: ()) {
    }

    fn encode(&self) -> (r: Vec<u8>) {
        let r: Vec<u8> = Vec::new();
        proof {
            assert(r@ =~= Seq::<u8>::empty());
        }
        r
    }

    fn decode(b: &[u8]) -> (r: Option<Self>) {
        if b.len() == 0 {
            Some(InitEnclaveInput {})
        } else {
            None
        }
    }
}

/// Output of the enclave-initialization command.
#[derive(Debug)]
pub struct InitEnclaveOutput {}

impl View for InitEnclaveOutput {
    type V = ();

    open spec fn view(&self) -> () {
        ()
    }
}

impl Message for InitEnclaveOutput {
    open spec fn enc(v: ()) -> Seq<u8> {
        Seq::empty()
    }

    open spec fn dec(b: Seq<u8>) -> Option<()> {
        if b.len() == 0 {
            Some(())
        } else {
            None
        }
    }

    proof fn lemma_round_trip(v: ()) {
    }

    fn encode(&self) -> (r: Vec<u8>) {
        let r: Vec<u8> = Vec::new();
        proof {
            assert(r@ =~= Seq::<u8>::empty());
        }
        r
    }

    fn decode(b: &[u8]) -> (r: Option<Self>) {
        if b.len() == 0 {
            Some(InitEnclaveOutput {})
        } else {
            None
        }
    }
}

/// Input of the enclave-finalization command.
#[derive(Debug)]
pub struct FinalizeEnclaveInput {}

impl View for FinalizeEnclaveInput {
    type V = ();

    open spec fn view(&self) -> () {
        ()
    }
}

impl Message for FinalizeEnclaveInput {
    open spec fn enc(v: ()) -> Seq<u8> {
        Seq::empty()
    }

    open spec fn dec(b: Seq<u8>) -> Option<()> {
        if b.len() == 0 {
            Some(())
        } else {
            None
        }
    }

    proof fn lemma_round_trip(v: ()) {
    }

    fn encode(&self) -> (r: Vec<u8>) {
        let r: Vec<u8> = Vec::new();
        proof {
            assert(r@ =~= Seq::<u8>::empty());
        }
        r
    }

    fn decode(b: &[u8]) -> (r: Option<Self>) {
        if b.len() == 0 {
            Some(FinalizeEnclaveInput {})
        } else {
            None
        }
    }
}

/// Output of the enclave-finalization command.
#[derive(Debug)]
pub struct FinalizeEnclaveOutput {}

impl View for FinalizeEnclaveOutput {
    type V = ();

    open spec fn view(&self) -> () {
        ()
    }
}

impl Message for FinalizeEnclaveOutput {
    open spec fn enc(v: ()) -> Seq<u8> {
        Seq::empty()
    }

    open spec fn dec(b: Seq<u8>) -> Option<()> {
        if b.len() == 0 {
            Some(())
        } else {
            None
        }
    }

    proof fn lemma_round_trip(v: ()) {
    }

    fn encode(&self) -> (r: Vec<u8>) {
        let r: Vec<u8> = Vec::new();
        proof {
            assert(r@ =~= Seq::<u8>::empty());
        }
        r
    }

    fn decode(b: &[u8]) -> (r: Option<Self>) {
        if b.len() == 0 {
            Some(FinalizeEnclaveOutput {})
        } else {
            None
        }
    }
}

/// Handler of the start-service command.  The verified gate here is the
/// decoding and dispatch; binding the two listeners and spinning up the
/// endpoint servers is the host's work around the boundary, so the reply is
/// a bare acknowledgement.
#[derive(Debug)]
pub struct StartServiceHandler {}

impl IpcService<StartServiceInput, StartServiceOutput> for StartServiceHandler {
    open spec fn model(&self, input: (u64, u64)) -> Option<()> {
        Some(())
    }

    fn handle_invoke(&self, input: StartServiceInput) -> (r: Result<
        StartServiceOutput,
        IpcError,
    >) {
        Ok(StartServiceOutput {})
    }
}

/// Handler of the enclave-initialization command; lifecycle work beyond the
/// acknowledgement is outside the dispatch layer.
#[derive(Debug)]
pub struct InitEnclaveHandler {}

impl IpcService<InitEnclaveInput, InitEnclaveOutput> for InitEnclaveHandler {
    open spec fn model(&self, input: ()) -> Option<()> {
        Some(())
    }

    fn handle_invoke(&self, input: InitEnclaveInput) -> (r: Result<InitEnclaveOutput, IpcError>) {
        Ok(InitEnclaveOutput {})
    }
}

/// Handler of the enclave-finalization command.
#[derive(Debug)]
pub struct FinalizeEnclaveHandler {}

impl IpcService<FinalizeEnclaveInput, FinalizeEnclaveOutput> for FinalizeEnclaveHandler {
    open spec fn model(&self, input: ()) -> Option<()> {
        Some(())
    }

    fn handle_invoke(&self, input: FinalizeEnclaveInput) -> (r: Result<
        FinalizeEnclaveOutput,
        IpcError,
    >) {
        Ok(FinalizeEnclaveOutput {})
    }
}

/// The status and output bytes the trusted-side entry point gives for a
/// command identifier and payload.
pub open spec fn ecall_entry_spec(cmd: u32, payload: Seq<u8>) -> (u32, Seq<u8>) {
    match cmd_of_spec(cmd) {
        Option::None => (STATUS_UNKNOWN_COMMAND, Seq::empty()),
        Option::Some(ECallCommand::StartService) => match StartServiceInput::dec(payload) {
            Option::None => (STATUS_DESERIALIZATION_ERROR, Seq::empty()),
            Option::Some(u) => (STATUS_SUCCESS, StartServiceOutput::enc(())),
        },
        Option::Some(ECallCommand::InitEnclave) => match InitEnclaveInput::dec(payload) {
            Option::None => (STATUS_DESERIALIZATION_ERROR, Seq::empty()),
            Option::Some(u) => (STATUS_SUCCESS, InitEnclaveOutput::enc(())),
        },
        Option::Some(ECallCommand::FinalizeEnclave) => match FinalizeEnclaveInput::dec(payload) {
            Option::None => (STATUS_DESERIALIZATION_ERROR, Seq::empty()),
            Option::Some(u) => (STATUS_SUCCESS, FinalizeEnclaveOutput::enc(())),
        },
    }
}

/// Trusted-side entry: the whole registry in one place, built once and
/// append-free.  Looks the command up, rejects unknown identifiers without
/// touching any payload byte, and otherwise runs the decode-invoke-encode
/// gate of the registered handler.
pub fn ecall_entry(cmd: u32, payload: &[u8]) -> (r: (EnclaveStatus, Vec<u8>))
    ensures
        r.0.0 == ecall_entry_spec(cmd, payload@).0,
        r.1@ == ecall_entry_spec(cmd, payload@).1,
{
    match ECallCommand::from_code(cmd) {
        None => (EnclaveStatus(STATUS_UNKNOWN_COMMAND), Vec::new()),
        Some(ECallCommand::StartService) => match dispatch::<
            StartServiceInput,
            StartServiceOutput,
            StartServiceHandler,
        >(payload, StartServiceHandler {}) {
            Ok(out) => (EnclaveStatus(STATUS_SUCCESS), out),
            Err(_) => (EnclaveStatus(STATUS_DESERIALIZATION_ERROR), Vec::new()),
        },
        Some(ECallCommand::InitEnclave) => match dispatch::<
            InitEnclaveInput,
            InitEnclaveOutput,
            InitEnclaveHandler,
        >(payload, InitEnclaveHandler {}) {
            Ok(out) => (EnclaveStatus(STATUS_SUCCESS), out),
            Err(_) => (EnclaveStatus(STATUS_DESERIALIZATION_ERROR), Vec::new()),
        },
        Some(ECallCommand::FinalizeEnclave) => match dispatch::<
            FinalizeEnclaveInput,
            FinalizeEnclaveOutput,
            FinalizeEnclaveHandler,
        >(payload, FinalizeEnclaveHandler {}) {
            Ok(out) => (EnclaveStatus(STATUS_SUCCESS), out),
            Err(_) => (EnclaveStatus(STATUS_DESERIALIZATION_ERROR), Vec::new()),
        },
    }
}

/// Unknown command rejection: an identifier absent from the registry is
/// answered with a nonzero status and empty output, whatever the payload —
/// no handler and no decoder ever sees it.
pub proof fn lemma_unknown_command_rejected(cmd: u32, payload: Seq<u8>)
    requires
        !registered(cmd),
    ensures
        ecall_entry_spec(cmd, payload).0 == STATUS_UNKNOWN_COMMAND,
        ecall_entry_spec(cmd, payload).0 != STATUS_SUCCESS,
        ecall_entry_spec(cmd, payload).1 == Seq::<u8>::empty(),
{
}

/// Whether `payload` is well-formed for the command registered under `cmd`.
pub open spec fn payload_well_formed(c: ECallCommand, payload: Seq<u8>) -> bool {
    match c {
        ECallCommand::StartService => StartServiceInput::dec(payload) is Some,
        ECallCommand::InitEnclave => InitEnclaveInput::dec(payload) is Some,
        ECallCommand::FinalizeEnclave => FinalizeEnclaveInput::dec(payload) is Some,
    }
}

/// Registered dispatch: a registered identifier with a well-formed payload
/// succeeds, and the output is exactly the encoding of its one handler's
/// reply to the decoded input; a malformed payload is rejected before any
/// handler logic, with the deserialization status.
pub proof fn lemma_registered_dispatches(cmd: u32, payload: Seq<u8>)
    requires
        registered(cmd),
    ensures
        payload_well_formed(cmd_of_spec(cmd)->Some_0, payload) ==> ecall_entry_spec(
            cmd,
            payload,
        ).0 == STATUS_SUCCESS,
        !payload_well_formed(cmd_of_spec(cmd)->Some_0, payload) ==> ecall_entry_spec(
            cmd,
            payload,
        ) == (STATUS_DESERIALIZATION_ERROR, Seq::<u8>::empty()),
{
}

/// A typed start-service invoke succeeds end to end: the encoded input
/// decodes back on the trusted side (round trip), the registered handler
/// answers, and the encoded acknowledgement decodes on the untrusted side.
pub proof fn lemma_start_service_invoke_succeeds(v: (u64, u64))
    ensures
        ecall_entry_spec(cmd_code_spec(ECallCommand::StartService), StartServiceInput::enc(v)).0
            == STATUS_SUCCESS,
        StartServiceOutput::dec(
            ecall_entry_spec(
                cmd_code_spec(ECallCommand::StartService),
                StartServiceInput::enc(v),
            ).1,
        ) == Some(()),
{
    StartServiceInput::lemma_round_trip(v);
}

/// Caller side of a boundary crossing: serializes an input, crosses the
/// boundary, and deserializes the output.  Implemented by whatever carries
/// the bytes — enclave hardware on a real deployment, an in-process call in
/// simulation.
pub trait IpcSender: Sized {
    fn invoke<U: Message, V: Message>(&mut self, cmd: u32, input: U) -> Result<V, IpcError>;
}

/// A boundary that stays in the process: the crossing is a direct call into
/// the trusted-side entry.  The substitute carrier for simulation and tests.
#[derive(Debug)]
pub struct InProcessBinder {}

impl InProcessBinder {
    /// One full typed invoke over the in-process boundary, with the exact
    /// relation between the typed result and the trusted entry's answer to
    /// the encoded input.
    pub fn invoke_typed<U: Message, V: Message>(&mut self, cmd: u32, input: &U) -> (r: Result<
        V,
        IpcError,
    >)
        ensures
            match r {
                Ok(v) => {
                    &&& ecall_entry_spec(cmd, U::enc(input@)).0 == 0
                    &&& V::dec(ecall_entry_spec(cmd, U::enc(input@)).1) == Some(v@)
                },
                Err(IpcError::BoundaryFailure(code)) => code == ecall_entry_spec(
                    cmd,
                    U::enc(input@),
                ).0 && code != 0,
                Err(IpcError::DeserializationError) => ecall_entry_spec(cmd, U::enc(input@)).0
                    == 0 && V::dec(ecall_entry_spec(cmd, U::enc(input@)).1) is None,
                Err(IpcError::UnknownCommand) => false,
            },
    {
        let payload = input.encode();
        let (status, out) = ecall_entry(cmd, payload.as_slice());
        decode_invoke_output::<V>(status, out.as_slice())
    }
}

impl IpcSender for InProcessBinder {
    fn invoke<U: Message, V: Message>(&mut self, cmd: u32, input: U) -> Result<V, IpcError> {
        self.invoke_typed::<U, V>(cmd, &input)
    }
}

/// Untrusted-side half of a typed invoke, before the boundary: the command
/// identifier and the serialized input handed to the host's call primitive.
pub fn encode_invoke_input<U: Message>(cmd: ECallCommand, input: &U) -> (r: (u32, Vec<u8>))
    ensures
        r.0 == cmd_code_spec(cmd),
        r.1@ == U::enc(input@),
{
    (cmd.code(), input.encode())
}

/// Untrusted-side half of a typed invoke, after the boundary: a nonzero
/// status is a boundary-level failure carrying that status; on success the
/// returned bytes must decode to the output type, and the caller observes
/// either that decoded value or a single error — never partial data.
pub fn decode_invoke_output<V: Message>(status: EnclaveStatus, out: &[u8]) -> (r: Result<
    V,
    IpcError,
>)
    ensures
        match r {
            Ok(v) => status.0 == 0 && V::dec(out@) == Some(v@),
            Err(IpcError::BoundaryFailure(code)) => code == status.0 && status.0 != 0,
            Err(IpcError::DeserializationError) => status.0 == 0 && V::dec(out@) is None,
            Err(IpcError::UnknownCommand) => false,
        },
{
    if status.is_err() {
        return Err(IpcError::BoundaryFailure(status.0));
    }
    match V::decode(out) {
        Some(v) => Ok(v),
        None => Err(IpcError::DeserializationError),
    }
}

} // verus!
