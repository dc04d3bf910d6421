//! The device session: the stateful protocol engine.
//!
//! A session owns one transport exclusively and drives the phases in order:
//! bootloader detection (with, on a legacy device, the identity read and the
//! reboot into the bootloader), identification, model validation, firmware
//! transfer. Each phase operation says in its contract which error kinds it
//! can return, exactly what it writes to the link and which replies it
//! consumes unless the link itself failed, and how its outcome is determined
//! by the bytes the device answered; on a reliable link (one that cannot
//! fail, such as the verified in-memory transport) every outcome is forced.
//! Any failure puts the session in the terminal `Failed` state; the caller
//! stops at the first failure.

use vstd::prelude::*;

use crate::chunking::{chunk_at, chunk_count, chunk_of, num_chunks};
use crate::codec::{
    boot_token, check_info_response, check_legacy_response, decode_info_identity,
    decode_legacy_identity, info_command, info_model, info_response_valid, info_serial,
    info_version, legacy_model, legacy_response_valid, legacy_version, make_boot_token,
    make_info_command, make_ok_token, make_query_command, make_read_registers_frame,
    make_ready_token, make_reboot_frame, make_start_command, ok_token, query_command,
    read_registers_frame, ready_token, reboot_ack, reboot_frame, start_command,
};
use crate::registry::{is_supported_model, model_supported};
use crate::transport::{
    drop_replies, head_reply, rest_replies, Transport, FLASH_DEADLINE_MS, SETTLE_MS,
};

verus! {

/// Where in the protocol a failure was observed.
#[derive(Clone, Copy, Debug, PartialEq, Eq, Structural)]
pub enum ProtocolPhase {
    /// Probing for bootloader mode and reading the legacy identity.
    Detect,
    /// Waiting for the acknowledgment of the reboot request.
    Reboot,
    /// Reading the bootloader's device information.
    Identify,
    /// Waiting for the ready token after the start command.
    StartTransfer,
    /// Waiting for the acknowledgment of the chunk with this index.
    Chunk(usize),
}

/// A failure of the flashing sequence. No error is recovered locally: the
/// sequence stops at the first one.
#[derive(Debug)]
pub enum FlashError {
    /// An empty read where a reply was owed: no device is listening.
    Timeout(ProtocolPhase),
    /// A reply that does not match the expected length, header or value for
    /// the current phase; carries the offending bytes.
    ProtocolViolation(ProtocolPhase, Vec<u8>),
    /// The decoded model code is not in the model registry.
    UnsupportedModel(u16),
    /// The underlying link failed on open, read or write.
    TransportFailure,
    /// The firmware image could not be obtained by the caller.
    ImageSourceFailure,
}

/// What the identification phase decodes from the bootloader.
#[derive(Clone, Copy, Debug, PartialEq, Eq, Structural)]
pub struct DeviceIdentity {
    /// Numeric model code.
    pub model: u16,
    /// Firmware version in hundredths (123 is v1.23).
    pub version_hundredths: u8,
    /// Serial number.
    pub serial: u32,
}

/// The session's protocol state. Initial: `Idle`; terminal: `Complete` and
/// `Failed`.
#[derive(Clone, Copy, Debug, PartialEq, Eq, Structural)]
pub enum SessionState {
    Idle,
    BootloaderUnconfirmed,
    LegacyDetected,
    RebootRequested,
    BootloaderConfirmed,
    IdentityKnown,
    ModelValidated,
    Transferring,
    Complete,
    Failed,
}

/// Spec-level snapshot of a session: protocol state, decoded identity, and
/// the transport model it has moved.
pub struct SessionView {
    pub state: SessionState,
    pub identity: Option<DeviceIdentity>,
    pub replies: Seq<Seq<u8>>,
    pub written: Seq<u8>,
    pub reliable: bool,
    pub deadline: u64,
    pub pauses: Seq<u64>,
}

/// A device session owning its transport.
pub struct Session<T: Transport> {
    transport: T,
    state: SessionState,
    identity: Option<DeviceIdentity>,
}

/// The initial query reply announces that the device already sits in the
/// bootloader.
pub open spec fn boot_reply(replies: Seq<Seq<u8>>) -> bool {
    head_reply(replies, 4) == boot_token()
}

impl<T: Transport> View for Session<T> {
    type V = SessionView;

    closed spec fn view(&self) -> SessionView {
        SessionView {
            state: self.state,
            identity: self.identity,
            replies: self.transport.replies(),
            written: self.transport.written(),
            reliable: self.transport.reliable(),
            deadline: self.transport.deadline_ms(),
            pauses: self.transport.pauses(),
        }
    }
}

impl<T: Transport> Session<T> {
    /// A fresh session owning `transport`, in the initial state. Construction
    /// touches nothing: the deadline, the wire and the reply queue are those
    /// of the transport handed in.
    pub fn new(transport: T) -> (r: Session<T>)
        ensures
            r@.state == SessionState::Idle,
            r@.identity is None,
            r@.replies == transport.replies(),
            r@.written == transport.written(),
            r@.reliable == transport.reliable(),
            r@.deadline == transport.deadline_ms(),
            r@.pauses == transport.pauses(),
    {
        Session { transport, state: SessionState::Idle, identity: None }
    }

    /// The session's current protocol state.
    pub fn state(&self) -> (s: SessionState)
        ensures
            s == self@.state,
    {
        self.state
    }

    /// The identity decoded by the identification phase, if it ran.
    pub fn identity(&self) -> (id: Option<DeviceIdentity>)
        ensures
            id == self@.identity,
    {
        self.identity
    }

    /// The owned transport, for inspection.
    pub fn transport(&self) -> (t: &T)
        ensures
            t.replies() == self@.replies,
            t.written() == self@.written,
            t.reliable() == self@.reliable,
            t.deadline_ms() == self@.deadline,
            t.pauses() == self@.pauses,
    {
        &self.transport
    }

    /// Probes for bootloader mode: sends the ASCII query command — the first
    /// bytes of the session — and reads up to 4 bytes, once.
    ///
    /// Returns `true` (state `BootloaderConfirmed`) exactly when the reply is
    /// the boot token: the device is already in the bootloader, and no binary
    /// frame is sent, no deadline changed, no pause taken. Any other reply,
    /// an empty one included, means legacy firmware (`false`, state
    /// `LegacyDetected`): the caller reads the legacy identity and forces a
    /// reboot next. Only the link itself can make this operation fail.
    pub fn detect_bootloader(&mut self) -> (r: Result<bool, FlashError>)
        requires
            old(self)@.state == SessionState::Idle,
        ensures
            final(self)@.identity == old(self)@.identity,
            final(self)@.reliable == old(self)@.reliable,
            final(self)@.deadline == old(self)@.deadline,
            final(self)@.pauses == old(self)@.pauses,
            r matches Err(e) ==> {
                &&& e is TransportFailure
                &&& final(self)@.state == SessionState::Failed
            },
            old(self)@.reliable ==> r matches Ok(_),
            r matches Ok(b) ==> {
                &&& b == boot_reply(old(self)@.replies)
                &&& final(self)@.state == (if b {
                    SessionState::BootloaderConfirmed
                } else {
                    SessionState::LegacyDetected
                })
                &&& final(self)@.written == old(self)@.written + query_command()
                &&& final(self)@.replies == rest_replies(old(self)@.replies)
            },
    {
        let cmd = make_query_command();
        if self.transport.write_all(cmd.as_slice()).is_err() {
            self.state = SessionState::Failed;
            return Err(FlashError::TransportFailure);
        }
        self.state = SessionState::BootloaderUnconfirmed;
        let reply = match self.transport.read_up_to(4) {
            Ok(v) => v,
            Err(_) => {
                self.state = SessionState::Failed;
                return Err(FlashError::TransportFailure);
            },
        };
        let boot = make_boot_token();
        if crate::codec::bytes_eq(reply.as_slice(), boot.as_slice()) {
            self.state = SessionState::BootloaderConfirmed;
            Ok(true)
        } else {
            self.state = SessionState::LegacyDetected;
            Ok(false)
        }
    }

    /// Reads the identity of a device still running its normal firmware, so
    /// it can be reported before the reboot is requested.
    ///
    /// Raises the read deadline to the flashing deadline, sends the fixed
    /// read-registers frame, and reads up to 13 bytes, once. An empty reply
    /// is a timeout; a reply that fails the shape and checksum validation is
    /// a protocol violation carrying the bytes. A valid reply decodes to the
    /// model code and the firmware version in hundredths; the state stays
    /// `LegacyDetected` for the reboot to follow.
    pub fn read_legacy_identity(&mut self) -> (r: Result<(u16, u8), FlashError>)
        requires
            old(self)@.state == SessionState::LegacyDetected,
        ensures
            final(self)@.identity == old(self)@.identity,
            final(self)@.reliable == old(self)@.reliable,
            final(self)@.pauses == old(self)@.pauses,
            r matches Err(_) ==> final(self)@.state == SessionState::Failed,
            r matches Err(e) ==> (e is Timeout || e is ProtocolViolation
                || e is TransportFailure),
            old(self)@.reliable ==> !(r matches Err(FlashError::TransportFailure)),
            !(r matches Err(FlashError::TransportFailure)) ==> {
                &&& final(self)@.deadline == FLASH_DEADLINE_MS
                &&& final(self)@.written == old(self)@.written + read_registers_frame()
                &&& final(self)@.replies == rest_replies(old(self)@.replies)
            },
            r matches Ok(pre) ==> {
                let m = head_reply(old(self)@.replies, 13);
                &&& final(self)@.state == SessionState::LegacyDetected
                &&& legacy_response_valid(m)
                &&& pre == (legacy_model(m), legacy_version(m))
            },
            r matches Err(FlashError::Timeout(p)) ==> {
                &&& p == ProtocolPhase::Detect
                &&& head_reply(old(self)@.replies, 13).len() == 0
            },
            r matches Err(FlashError::ProtocolViolation(p, b)) ==> {
                &&& p == ProtocolPhase::Detect
                &&& b@ == head_reply(old(self)@.replies, 13)
                &&& b@.len() > 0
                &&& !legacy_response_valid(b@)
            },
    {
        if self.transport.set_deadline_ms(FLASH_DEADLINE_MS).is_err() {
            self.state = SessionState::Failed;
            return Err(FlashError::TransportFailure);
        }
        let frame = make_read_registers_frame();
        if self.transport.write_all(frame.as_slice()).is_err() {
            self.state = SessionState::Failed;
            return Err(FlashError::TransportFailure);
        }
        let resp = match self.transport.read_up_to(13) {
            Ok(v) => v,
            Err(_) => {
                self.state = SessionState::Failed;
                return Err(FlashError::TransportFailure);
            },
        };
        if resp.len() == 0 {
            self.state = SessionState::Failed;
            return Err(FlashError::Timeout(ProtocolPhase::Detect));
        }
        if !check_legacy_response(resp.as_slice()) {
            self.state = SessionState::Failed;
            return Err(FlashError::ProtocolViolation(ProtocolPhase::Detect, resp));
        }
        let (model, version) = decode_legacy_identity(resp.as_slice());
        Ok((model, version))
    }

    /// Commands a legacy device to reboot into the bootloader.
    ///
    /// Sends the fixed write-register frame and reads up to 1 byte, once. Any
    /// reply other than the single acknowledgment byte — an empty one
    /// included — is a protocol violation carrying the bytes. On the
    /// acknowledgment, the fixed settle pause lets the device restart, and
    /// the bootloader is confirmed; errors take no pause.
    pub fn reboot_to_bootloader(&mut self) -> (r: Result<(), FlashError>)
        requires
            old(self)@.state == SessionState::LegacyDetected,
        ensures
            final(self)@.identity == old(self)@.identity,
            final(self)@.reliable == old(self)@.reliable,
            final(self)@.deadline == old(self)@.deadline,
            r matches Err(_) ==> {
                &&& final(self)@.state == SessionState::Failed
                &&& final(self)@.pauses == old(self)@.pauses
            },
            r matches Err(e) ==> (e is ProtocolViolation || e is TransportFailure),
            old(self)@.reliable ==> !(r matches Err(FlashError::TransportFailure)),
            !(r matches Err(FlashError::TransportFailure)) ==> {
                &&& final(self)@.written == old(self)@.written + reboot_frame()
                &&& final(self)@.replies == rest_replies(old(self)@.replies)
            },
            r matches Ok(_) ==> {
                &&& final(self)@.state == SessionState::BootloaderConfirmed
                &&& head_reply(old(self)@.replies, 1) == reboot_ack()
                &&& final(self)@.pauses == old(self)@.pauses.push(SETTLE_MS)
            },
            r matches Err(FlashError::ProtocolViolation(p, b)) ==> {
                &&& p == ProtocolPhase::Reboot
                &&& b@ == head_reply(old(self)@.replies, 1)
                &&& b@ != reboot_ack()
            },
    {
        let frame = make_reboot_frame();
        if self.transport.write_all(frame.as_slice()).is_err() {
            self.state = SessionState::Failed;
            return Err(FlashError::TransportFailure);
        }
        self.state = SessionState::RebootRequested;
        let ack = match self.transport.read_up_to(1) {
            Ok(v) => v,
            Err(_) => {
                self.state = SessionState::Failed;
                return Err(FlashError::TransportFailure);
            },
        };
        if !(ack.len() == 1 && ack[0] == 0xFC) {
            proof {
                assert(ack@ != reboot_ack());
            }
            self.state = SessionState::Failed;
            return Err(FlashError::ProtocolViolation(ProtocolPhase::Reboot, ack));
        }
        proof {
            assert(ack@ =~= reboot_ack());
        }
        self.transport.pause_ms(SETTLE_MS);
        self.state = SessionState::BootloaderConfirmed;
        Ok(())
    }

    /// Reads the device identity from the bootloader.
    ///
    /// Sends the ASCII information command and reads up to 13 bytes — one
    /// command, one read, whatever the outcome, with the deadline untouched.
    /// An empty reply is a timeout; a reply that is not exactly 13 bytes
    /// behind the ASCII info prefix is a protocol violation. A valid reply
    /// decodes to serial number, model code and firmware version, which the
    /// session records.
    pub fn query_identity(&mut self) -> (r: Result<DeviceIdentity, FlashError>)
        requires
            old(self)@.state == SessionState::BootloaderConfirmed,
        ensures
            final(self)@.reliable == old(self)@.reliable,
            final(self)@.deadline == old(self)@.deadline,
            final(self)@.pauses == old(self)@.pauses,
            r matches Err(_) ==> {
                &&& final(self)@.state == SessionState::Failed
                &&& final(self)@.identity == old(self)@.identity
            },
            r matches Err(e) ==> (e is Timeout || e is ProtocolViolation
                || e is TransportFailure),
            old(self)@.reliable ==> !(r matches Err(FlashError::TransportFailure)),
            !(r matches Err(FlashError::TransportFailure)) ==> {
                &&& final(self)@.written == old(self)@.written + info_command()
                &&& final(self)@.replies == rest_replies(old(self)@.replies)
            },
            r matches Ok(id) ==> {
                let m = head_reply(old(self)@.replies, 13);
                &&& final(self)@.state == SessionState::IdentityKnown
                &&& info_response_valid(m)
                &&& id == (DeviceIdentity {
                    model: info_model(m),
                    version_hundredths: info_version(m),
                    serial: info_serial(m),
                })
                &&& final(self)@.identity == Some(id)
            },
            r matches Err(FlashError::Timeout(p)) ==> {
                &&& p == ProtocolPhase::Identify
                &&& head_reply(old(self)@.replies, 13).len() == 0
            },
            r matches Err(FlashError::ProtocolViolation(p, b)) ==> {
                &&& p == ProtocolPhase::Identify
                &&& b@ == head_reply(old(self)@.replies, 13)
                &&& b@.len() > 0
                &&& !info_response_valid(b@)
            },
    {
        let cmd = make_info_command();
        if self.transport.write_all(cmd.as_slice()).is_err() {
            self.state = SessionState::Failed;
            return Err(FlashError::TransportFailure);
        }
        let resp = match self.transport.read_up_to(13) {
            Ok(v) => v,
            Err(_) => {
                self.state = SessionState::Failed;
                return Err(FlashError::TransportFailure);
            },
        };
        if resp.len() == 0 {
            self.state = SessionState::Failed;
            return Err(FlashError::Timeout(ProtocolPhase::Identify));
        }
        if !check_info_response(resp.as_slice()) {
            self.state = SessionState::Failed;
            return Err(FlashError::ProtocolViolation(ProtocolPhase::Identify, resp));
        }
        let (model, version, serial) = decode_info_identity(resp.as_slice());
        let id = DeviceIdentity { model, version_hundredths: version, serial };
        self.identity = Some(id);
        self.state = SessionState::IdentityKnown;
        Ok(id)
    }

    /// Gates the transfer on the model registry.
    ///
    /// Exchanges no bytes, changes no deadline, takes no pause. Succeeds
    /// exactly when the decoded model code is in the registry; otherwise the
    /// session fails with the unsupported model, stopping the sequence before
    /// the firmware image is touched.
    pub fn validate_model(&mut self) -> (r: Result<(), FlashError>)
        requires
            old(self)@.state == SessionState::IdentityKnown,
            old(self)@.identity is Some,
        ensures
            final(self)@.written == old(self)@.written,
            final(self)@.replies == old(self)@.replies,
            final(self)@.identity == old(self)@.identity,
            final(self)@.reliable == old(self)@.reliable,
            final(self)@.deadline == old(self)@.deadline,
            final(self)@.pauses == old(self)@.pauses,
            r matches Ok(_) <==> model_supported(old(self)@.identity.unwrap().model),
            r matches Ok(_) ==> final(self)@.state == SessionState::ModelValidated,
            r matches Err(e) ==> {
                &&& final(self)@.state == SessionState::Failed
                &&& e == FlashError::UnsupportedModel(old(self)@.identity.unwrap().model)
            },
    {
        let model = match &self.identity {
            Some(id) => id.model,
            // Unreachable: the precondition has an identity recorded.
            None => {
                self.state = SessionState::Failed;
                return Err(FlashError::TransportFailure);
            },
        };
        if is_supported_model(model) {
            self.state = SessionState::ModelValidated;
            Ok(())
        } else {
            self.state = SessionState::Failed;
            Err(FlashError::UnsupportedModel(model))
        }
    }

    /// Pushes the firmware image to the device in 64-byte chunks.
    ///
    /// Raises the deadline to the flashing deadline, sends the ASCII start
    /// command and requires the 6-byte ready token. Then writes each chunk in
    /// order and requires the 2-byte `OK` acknowledgment after every one
    /// before the next chunk is written; the first mismatch aborts with a
    /// chunk-indexed protocol violation and nothing past that chunk is
    /// written. When every acknowledgment matched, the session is complete
    /// and exactly the whole image went over the link after the start
    /// command. On a reliable link, success is owed exactly when the device
    /// answers ready and acknowledges every chunk.
    pub fn transfer_firmware(&mut self, firmware: &[u8]) -> (r: Result<(), FlashError>)
        requires
            old(self)@.state == SessionState::ModelValidated,
        ensures
            final(self)@.identity == old(self)@.identity,
            final(self)@.reliable == old(self)@.reliable,
            final(self)@.pauses == old(self)@.pauses,
            r matches Err(_) ==> final(self)@.state == SessionState::Failed,
            r matches Err(e) ==> (e is ProtocolViolation || e is TransportFailure),
            old(self)@.reliable ==> !(r matches Err(FlashError::TransportFailure)),
            !(r matches Err(FlashError::TransportFailure)) ==> final(self)@.deadline
                == FLASH_DEADLINE_MS,
            r matches Ok(_) ==> {
                let reps = old(self)@.replies;
                &&& final(self)@.state == SessionState::Complete
                &&& head_reply(reps, 6) == ready_token()
                &&& forall|n: nat|
                    1 <= n <= num_chunks(firmware@.len()) ==> head_reply(
                        #[trigger] drop_replies(reps, n),
                        2,
                    ) == ok_token()
                &&& final(self)@.written == old(self)@.written + start_command() + firmware@
                &&& final(self)@.replies == drop_replies(
                    reps,
                    (1 + num_chunks(firmware@.len())) as nat,
                )
            },
            r matches Err(FlashError::ProtocolViolation(p, b)) ==> (p
                == ProtocolPhase::StartTransfer || p matches ProtocolPhase::Chunk(_)),
            r matches Err(FlashError::ProtocolViolation(ProtocolPhase::StartTransfer, b)) ==> {
                &&& b@ == head_reply(old(self)@.replies, 6)
                &&& b@ != ready_token()
                &&& final(self)@.written == old(self)@.written + start_command()
                &&& final(self)@.replies == rest_replies(old(self)@.replies)
            },
            r matches Err(FlashError::ProtocolViolation(ProtocolPhase::Chunk(ci), b)) ==> {
                let reps = old(self)@.replies;
                &&& (ci as int) < num_chunks(firmware@.len())
                &&& head_reply(reps, 6) == ready_token()
                &&& b@ == head_reply(drop_replies(reps, (1 + ci) as nat), 2)
                &&& b@ != ok_token()
                &&& final(self)@.written == old(self)@.written + start_command()
                    + firmware@.take(
                    if 64 * (ci as int) + 64 <= firmware@.len() {
                        64 * (ci as int) + 64
                    } else {
                        firmware@.len() as int
                    },
                )
                &&& final(self)@.replies == drop_replies(reps, (2 + ci) as nat)
            },
    {
        let ghost reps = old(self)@.replies;
        let ghost w0 = old(self)@.written;
        if self.transport.set_deadline_ms(FLASH_DEADLINE_MS).is_err() {
            self.state = SessionState::Failed;
            return Err(FlashError::TransportFailure);
        }
        let cmd = make_start_command();
        if self.transport.write_all(cmd.as_slice()).is_err() {
            self.state = SessionState::Failed;
            return Err(FlashError::TransportFailure);
        }
        let ready = match self.transport.read_up_to(6) {
            Ok(v) => v,
            Err(_) => {
                self.state = SessionState::Failed;
                return Err(FlashError::TransportFailure);
            },
        };
        let ready_tok = make_ready_token();
        if !crate::codec::bytes_eq(ready.as_slice(), ready_tok.as_slice()) {
            self.state = SessionState::Failed;
            return Err(FlashError::ProtocolViolation(ProtocolPhase::StartTransfer, ready));
        }
        self.state = SessionState::Transferring;

        let total = chunk_count(firmware.len());
        let ok_tok = make_ok_token();
        let mut ci: usize = 0;
        proof {
            assert(drop_replies(reps, 0) == reps);
            assert(drop_replies(reps, 1) == rest_replies(drop_replies(reps, 0)));
            assert(firmware@.take(sent_prefix(firmware@, 0)) =~= Seq::<u8>::empty());
            assert(self@.written =~= w0 + start_command() + firmware@.take(
                sent_prefix(firmware@, 0),
            ));
        }
        while ci < total
            invariant
                total == num_chunks(firmware@.len()),
                ci <= total,
                ok_tok@ == ok_token(),
                reps == old(self)@.replies,
                w0 == old(self)@.written,
                self@.state == SessionState::Transferring,
                self@.identity == old(self)@.identity,
                self@.reliable == old(self)@.reliable,
                self@.pauses == old(self)@.pauses,
                self@.deadline == FLASH_DEADLINE_MS,
                head_reply(reps, 6) == ready_token(),
                self@.written == w0 + start_command() + firmware@.take(
                    sent_prefix(firmware@, ci as int),
                ),
                self@.replies == drop_replies(reps, (1 + ci) as nat),
                forall|n: nat|
                    1 <= n <= ci ==> head_reply(#[trigger] drop_replies(reps, n), 2)
                        == ok_token(),
            decreases total - ci,
        {
            proof {
                assert(64 * ci < firmware@.len()) by (nonlinear_arith)
                    requires
                        ci < total,
                        total == (firmware@.len() + 63) / 64,
                ;
            }
            let ghost end = if 64 * (ci as int) + 64 <= firmware@.len() {
                64 * (ci as int) + 64
            } else {
                firmware@.len() as int
            };
            let chunk = chunk_at(firmware, ci);
            if self.transport.write_all(chunk.as_slice()).is_err() {
                self.state = SessionState::Failed;
                return Err(FlashError::TransportFailure);
            }
            proof {
                assert(firmware@.take(end) =~= firmware@.take(sent_prefix(firmware@, ci as int))
                    + chunk_of(firmware@, ci as int));
                assert(self@.written =~= w0 + start_command() + firmware@.take(end));
            }
            let ack = match self.transport.read_up_to(2) {
                Ok(v) => v,
                Err(_) => {
                    self.state = SessionState::Failed;
                    return Err(FlashError::TransportFailure);
                },
            };
            proof {
                assert(drop_replies(reps, (2 + ci) as nat) == rest_replies(
                    drop_replies(reps, (1 + ci) as nat),
                ));
            }
            if !crate::codec::bytes_eq(ack.as_slice(), ok_tok.as_slice()) {
                self.state = SessionState::Failed;
                return Err(FlashError::ProtocolViolation(ProtocolPhase::Chunk(ci), ack));
            }
            proof {
                assert(head_reply(drop_replies(reps, (1 + ci) as nat), 2) == ok_token());
            }
            ci = ci + 1;
            proof {
                assert(sent_prefix(firmware@, ci as int) == end);
                assert forall|n: nat|
                    1 <= n <= ci implies head_reply(#[trigger] drop_replies(reps, n), 2)
                    == ok_token() by {
                    if n <= ci - 1 {
                    } else {
                        assert(n == (1 + (ci - 1)) as nat);
                    }
                }
            }
        }
        proof {
            assert(64 * total >= firmware@.len()) by (nonlinear_arith)
                requires
                    total == (firmware@.len() + 63) / 64,
            ;
            assert(firmware@.take(sent_prefix(firmware@, ci as int)) =~= firmware@);
        }
        self.state = SessionState::Complete;
        Ok(())
    }
}

/// How many bytes of the image stand on the link after `ci` chunks: 64·ci,
/// capped at the image length.
pub open spec fn sent_prefix(fw: Seq<u8>, ci: int) -> int {
    if 64 * ci <= fw.len() {
        64 * ci
    } else {
        fw.len() as int
    }
}

} // verus!
