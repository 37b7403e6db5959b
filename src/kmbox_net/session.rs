use crate::button_state::{button_bits, wheel_value};
use crate::errors::{ConnectionFailure, SendFailure};
use crate::keyboardkeys::scancode;
use crate::kmbox_net::cmd::{is_sendable, opcode, CMD, CMD_CONNECT};
use crate::kmbox_net::errors::{KMBoxNetConnectionError, KMBoxNetSendError};
use crate::kmbox_net::structs::{
    lemma_u32_round_trip, mouse_of, packet_bytes, packet_of, put_u32, u32_at, CmdData, CmdHead,
    ClientTx, MouseModel, PacketModel, PACKET_SIZE, PAYLOAD_SIZE,
};
use crate::{operation_of, DeviceAction};
use vstd::prelude::*;
use vstd::string::StringSliceAdditionalSpecFns;

verus! {

/// Relies on `rand::rngs::OsRng` through `RngCore::try_fill_bytes`: four
/// bytes from the operating system's generator, or `None` where it cannot give
/// them (the call reports that as an error; it does not panic). Nothing is
/// promised of the value.
#[verifier::external_body]
fn fresh_nonce() -> Option<u32> {
    let mut bytes = [0u8; 4];
    match rand::RngCore::try_fill_bytes(&mut rand::rngs::OsRng, &mut bytes) {
        Ok(()) => Some(u32::from_le_bytes(bytes)),
        Err(_) => None,
    }
}

/// The command that carries an action to the device; `None` for the side
/// buttons, which the device has no command for.
pub open spec fn command_for(action: DeviceAction) -> Option<CMD> {
    match action {
        DeviceAction::KeyboardKeydown(_) => Some(CMD::KEYBOARD_ALL),
        DeviceAction::KeyboardKeyup(_) => Some(CMD::KEYBOARD_ALL),
        DeviceAction::MouseLeftClick(_) => Some(CMD::MOUSE_LEFT),
        DeviceAction::MouseRightClick(_) => Some(CMD::MOUSE_RIGHT),
        DeviceAction::MouseMiddleClick(_) => Some(CMD::MOUSE_MIDDLE),
        DeviceAction::MouseWheelClick(_) => Some(CMD::MOUSE_MIDDLE),
        DeviceAction::MouseWheel(_) => Some(CMD::MOUSE_WHEEL),
        DeviceAction::MouseMove(_, _) => Some(CMD::MOUSE_MOVE),
        DeviceAction::MouseSide1Click(_) | DeviceAction::MouseSide2Click(_) => None,
    }
}

/// Whether key slot `i` (payload byte `2 + i`) is the first empty one.
pub open spec fn first_free_slot(b: Seq<u8>, i: int) -> bool {
    &&& 0 <= i < 10
    &&& b[2 + i] == 0
    &&& forall|j: int| 0 <= j < i ==> #[trigger] b[2 + j] != 0
}

/// The payload after pressing the key with scancode `code`: the first empty
/// key slot takes it; with no empty slot nothing changes.
pub open spec fn key_down_bytes(b: Seq<u8>, code: u8) -> Seq<u8> {
    if exists|i: int| first_free_slot(b, i) {
        b.update(2 + choose|i: int| first_free_slot(b, i), code)
    } else {
        b
    }
}

/// The payload after releasing the key with scancode `code`: every key slot
/// that holds it is emptied.
pub open spec fn key_up_bytes(b: Seq<u8>, code: u8) -> Seq<u8> {
    Seq::new(b.len(), |i: int| if 2 <= i < 12 && b[i] == code { 0u8 } else { b[i] })
}

/// The payload after the report mutation of an action.
pub open spec fn payload_after(action: DeviceAction, b: Seq<u8>) -> Seq<u8> {
    match action {
        DeviceAction::KeyboardKeydown(k) => key_down_bytes(b, scancode(k)),
        DeviceAction::KeyboardKeyup(k) => key_up_bytes(b, scancode(k)),
        DeviceAction::MouseLeftClick(s) => put_u32(b, 0, button_bits(s) as u32),
        DeviceAction::MouseRightClick(s) => put_u32(b, 0, button_bits(s) as u32),
        DeviceAction::MouseMiddleClick(s) => put_u32(b, 0, button_bits(s) as u32),
        DeviceAction::MouseWheelClick(s) => put_u32(b, 0, button_bits(s) as u32),
        DeviceAction::MouseWheel(w) => put_u32(b, 12, wheel_value(w) as u32),
        DeviceAction::MouseMove(dx, dy) => put_u32(put_u32(b, 4, dx as u32), 8, dy as u32),
        DeviceAction::MouseSide1Click(_) | DeviceAction::MouseSide2Click(_) => b,
    }
}

/// The packet sent for `cmd` after `before`: same identity, sequence one
/// more (modulo 2^32), the given nonce, opcode and payload.
pub open spec fn issued(before: PacketModel, cmd: CMD, nonce: u32, payload: Seq<u8>) -> PacketModel {
    PacketModel {
        head: CmdHead {
            mac: before.head.mac,
            rand: nonce,
            indexpts: vstd::wrapping::u32_specs::wrapping_add(before.head.indexpts, 1),
            cmd: opcode(cmd),
        },
        payload,
    }
}

/// The connect request for an identity: sequence 0, opcode CONNECT, zero payload.
pub open spec fn connect_packet(identity: u32, nonce: u32) -> PacketModel {
    PacketModel {
        head: CmdHead { mac: identity, rand: nonce, indexpts: 0, cmd: CMD_CONNECT },
        payload: Seq::new(PAYLOAD_SIZE as nat, |i: int| 0u8),
    }
}

/// Whether a handshake reply echoes the request's sequence and opcode.
pub open spec fn reply_matches(request: PacketModel, reply: Seq<u8>) -> bool {
    &&& reply.len() == PACKET_SIZE
    &&& packet_of(reply).head.cmd == request.head.cmd
    &&& packet_of(reply).head.indexpts == request.head.indexpts
}

/// The nonce of the packet that switches the device to monitor mode, made
/// from the device port as the firmware expects.
pub open spec fn monitor_nonce(port: u16) -> u32 {
    ((port as u32 + 1) as u32) | (0xaa55u32 << 16u32)
}

/// A connected session with the device: the outbound template packet, which
/// every command rewrites in place, and the last reply. A session exists only
/// as the result of a successful handshake. It is neither `Clone` nor `Copy`:
/// turning it into a monitor consumes it.
#[derive(Debug)]
pub struct Session {
    tx: ClientTx,
    rx: ClientTx,
}

impl Session {
    /// The outbound template: the packet most recently sent.
    pub closed spec fn template(&self) -> PacketModel {
        self.tx@
    }

    /// The most recent reply of the device.
    pub closed spec fn last_reply(&self) -> PacketModel {
        self.rx@
    }

    /// Both packets of a session have a whole payload.
    pub proof fn lemma_whole_packets(&self)
        ensures
            self.template().payload.len() == PAYLOAD_SIZE,
            self.last_reply().payload.len() == PAYLOAD_SIZE,
    {
    }

    /// The connect request for an identity and nonce.
    pub fn connect_request(identity: u32, nonce: u32) -> (r: ClientTx)
        ensures
            r@ == connect_packet(identity, nonce),
    {
        ClientTx {
            head: CmdHead { mac: identity, rand: nonce, indexpts: 0, cmd: CMD::CONNECT.code() },
            data: CmdData::zeroed(),
        }
    }

    /// The connect request for a device identifier, with a fresh nonce. Fails
    /// with `InvalidIdentifier` where the identifier does not start with eight
    /// hexadecimal digits, and otherwise with `NoRandomness` only where the
    /// operating system gives no random nonce.
    pub fn prepare_connect(uuid: &str) -> (r: Result<ClientTx, KMBoxNetConnectionError>)
        ensures
            !crate::kmbox_net::hex_prefix(uuid.spec_bytes(), 8) ==> (r matches Err(e)
                && e.0 is InvalidIdentifier),
            r is Ok ==> crate::kmbox_net::hex_prefix(uuid.spec_bytes(), 8),
            r matches Ok(p) ==> p@ == connect_packet(
                crate::kmbox_net::identity_of(uuid.spec_bytes(), 4),
                p@.head.rand,
            ),
            crate::kmbox_net::hex_prefix(uuid.spec_bytes(), 8) ==> (r matches Err(e)
                ==> e.0 is NoRandomness),
    {
        match crate::kmbox_net::parse_identity(uuid) {
            Some(identity) => match fresh_nonce() {
                Some(nonce) => Ok(Self::connect_request(identity, nonce)),
                None => Err(KMBoxNetConnectionError(ConnectionFailure::NoRandomness)),
            },
            None => Err(KMBoxNetConnectionError(ConnectionFailure::InvalidIdentifier)),
        }
    }

    /// Completes the handshake: the session exists exactly when the reply is
    /// one whole packet that echoes the request's sequence and opcode.
    pub fn establish(request: ClientTx, reply: &[u8]) -> (r: Result<Session, KMBoxNetConnectionError>)
        ensures
            r is Ok <==> reply_matches(request@, reply@),
            r matches Ok(s) ==> s.template() == request@ && s.last_reply() == packet_of(reply@),
            r matches Err(e) ==> (reply@.len() != PACKET_SIZE ==> e.0 == (
            ConnectionFailure::MalformedReply { length: reply@.len() as usize })),
            r matches Err(e) ==> (reply@.len() == PACKET_SIZE ==> e.0 == (
            ConnectionFailure::ReplyMismatch {
                sent_sequence: request@.head.indexpts,
                sent_opcode: request@.head.cmd,
                reply_sequence: packet_of(reply@).head.indexpts,
                reply_opcode: packet_of(reply@).head.cmd,
            })),
    {
        match ClientTx::decode(reply) {
            None => Err(
                KMBoxNetConnectionError(ConnectionFailure::MalformedReply { length: reply.len() }),
            ),
            Some(rx) => {
                if rx.head.cmd != request.head.cmd || rx.head.indexpts != request.head.indexpts {
                    Err(
                        KMBoxNetConnectionError(
                            ConnectionFailure::ReplyMismatch {
                                sent_sequence: request.head.indexpts,
                                sent_opcode: request.head.cmd,
                                reply_sequence: rx.head.indexpts,
                                reply_opcode: rx.head.cmd,
                            },
                        ),
                    )
                } else {
                    Ok(Session { tx: request, rx })
                }
            },
        }
    }

    /// The outbound template packet.
    pub fn outbound(&self) -> (r: ClientTx)
        ensures
            r@ == self.template(),
    {
        self.tx
    }

    /// The last reply of the device.
    pub fn reply(&self) -> (r: ClientTx)
        ensures
            r@ == self.last_reply(),
    {
        self.rx
    }

    /// The sequence number of the packet most recently sent.
    pub fn sequence(&self) -> (r: u32)
        ensures
            r == self.template().head.indexpts,
    {
        self.tx.head.indexpts
    }

    /// Keeps a reply of the device; bytes that are not one whole packet are ignored.
    pub fn record_reply(&mut self, bytes: &[u8])
        ensures
            final(self).template() == old(self).template(),
            bytes@.len() == PACKET_SIZE ==> final(self).last_reply() == packet_of(bytes@),
            bytes@.len() != PACKET_SIZE ==> final(self).last_reply() == old(self).last_reply(),
    {
        if let Some(rx) = ClientTx::decode(bytes) {
            self.rx = rx;
        }
    }

    /// Stamps the template for `cmd` and returns its wire bytes.
    fn issue(&mut self, cmd: CMD, nonce: u32) -> (r: Vec<u8>)
        ensures
            final(self).template() == issued(
                old(self).template(),
                cmd,
                nonce,
                old(self).template().payload,
            ),
            final(self).last_reply() == old(self).last_reply(),
            r@ == packet_bytes(final(self).template()),
    {
        self.tx.head.indexpts = self.tx.head.indexpts.wrapping_add(1);
        self.tx.head.cmd = cmd.code();
        self.tx.head.rand = nonce;
        self.tx.encode()
    }

    /// Sends a bare command with the given nonce: the wire bytes of the
    /// template stamped for it. The device-management commands, which have
    /// no send-side behaviour, fail and leave the session as it was.
    pub fn send_command(&mut self, cmd: CMD, nonce: u32) -> (r: Result<Vec<u8>, KMBoxNetSendError>)
        ensures
            r is Ok <==> is_sendable(cmd),
            r matches Ok(frame) ==> final(self).template() == issued(
                old(self).template(),
                cmd,
                nonce,
                old(self).template().payload,
            ) && frame@ == packet_bytes(final(self).template()),
            r matches Err(e) ==> e.0 == SendFailure::UnsupportedCommand(cmd) && final(self).template()
                == old(self).template(),
            final(self).last_reply() == old(self).last_reply(),
    {
        if !cmd.is_sendable() {
            return Err(KMBoxNetSendError(SendFailure::UnsupportedCommand(cmd)));
        }
        Ok(self.issue(cmd, nonce))
    }

    /// Reboots the device: the REBOOT command with no payload change.
    pub fn reboot_with_nonce(&mut self, nonce: u32) -> (r: Vec<u8>)
        ensures
            final(self).template() == issued(
                old(self).template(),
                CMD::REBOOT,
                nonce,
                old(self).template().payload,
            ),
            final(self).last_reply() == old(self).last_reply(),
            r@ == packet_bytes(final(self).template()),
    {
        self.issue(CMD::REBOOT, nonce)
    }

    /// Reboots the device, with a fresh nonce. Fails with `NoRandomness`, and
    /// leaves the session as it was, only where the operating system gives no
    /// random nonce.
    pub fn reboot(&mut self) -> (r: Result<Vec<u8>, KMBoxNetSendError>)
        ensures
            r matches Ok(frame) ==> final(self).template() == issued(
                old(self).template(),
                CMD::REBOOT,
                final(self).template().head.rand,
                old(self).template().payload,
            ) && frame@ == packet_bytes(final(self).template()),
            r matches Err(e) ==> e.0 is NoRandomness && final(self).template() == old(
                self,
            ).template(),
            final(self).last_reply() == old(self).last_reply(),
    {
        match fresh_nonce() {
            Some(nonce) => Ok(self.reboot_with_nonce(nonce)),
            None => Err(KMBoxNetSendError(SendFailure::NoRandomness)),
        }
    }

    /// Puts `code` in the first empty key slot of the template; with no
    /// empty slot the template stays as it was.
    fn press_key(&mut self, code: u8)
        ensures
            final(self).tx.head == old(self).tx.head,
            final(self).tx.data@ == key_down_bytes(old(self).tx.data@, code),
            final(self).rx == old(self).rx,
    {
        let ghost b = self.tx.data@;
        let mut i: usize = 0;
        while i < 10
            invariant
                i <= 10,
                self.tx == old(self).tx,
                self.rx == old(self).rx,
                b == self.tx.data@,
                b.len() == PAYLOAD_SIZE,
                forall|j: int| 0 <= j < i ==> #[trigger] b[2 + j] != 0,
            decreases 10 - i,
        {
            if self.tx.data.u8buff[2 + i] == 0 {
                assert(first_free_slot(b, i as int));
                let ghost c = choose|c: int| first_free_slot(b, c);
                assert(c == i) by {
                    if c < i {
                        assert(b[2 + c] != 0);
                    } else if c > i {
                        assert(b[2 + i as int] != 0);
                    }
                }
                self.tx.data.put_u8(2 + i, code);
                return;
            }
            i = i + 1;
        }
        assert(!exists|c: int| first_free_slot(b, c)) by {
            if exists|c: int| first_free_slot(b, c) {
                let c = choose|c: int| first_free_slot(b, c);
                assert(b[2 + c] != 0);
            }
        }
    }

    /// Empties every key slot of the template that holds `code`.
    fn release_key(&mut self, code: u8)
        ensures
            final(self).tx.head == old(self).tx.head,
            final(self).tx.data@ == key_up_bytes(old(self).tx.data@, code),
            final(self).rx == old(self).rx,
    {
        let ghost b = self.tx.data@;
        let mut i: usize = 0;
        while i < 10
            invariant
                i <= 10,
                self.tx.head == old(self).tx.head,
                self.rx == old(self).rx,
                b == old(self).tx.data@,
                b.len() == PAYLOAD_SIZE,
                self.tx.data@.len() == PAYLOAD_SIZE,
                forall|j: int|
                    0 <= j < PAYLOAD_SIZE ==> #[trigger] self.tx.data@[j] == if 2 <= j < 2 + i
                        && b[j] == code {
                        0u8
                    } else {
                        b[j]
                    },
            decreases 10 - i,
        {
            if self.tx.data.u8buff[2 + i] == code {
                self.tx.data.put_u8(2 + i, 0);
            }
            i = i + 1;
        }
        assert(self.tx.data@ =~= key_up_bytes(b, code));
    }

    /// Carries out an action with the given nonce: rewrites the template's
    /// report as the action says, stamps it for the action's command and
    /// returns its wire bytes. An action that the device has no command for
    /// fails as unsupported and leaves the session as it was.
    pub fn perform_with_nonce(&mut self, action: DeviceAction, nonce: u32) -> (r: Result<
        Vec<u8>,
        KMBoxNetSendError,
    >)
        ensures
            r is Ok <==> command_for(action) is Some,
            r matches Ok(frame) ==> final(self).template() == issued(
                old(self).template(),
                command_for(action)->Some_0,
                nonce,
                payload_after(action, old(self).template().payload),
            ) && frame@ == packet_bytes(final(self).template()),
            r matches Err(e) ==> e.0 == SendFailure::Unsupported(operation_of(action))
                && final(self).template() == old(self).template(),
            final(self).last_reply() == old(self).last_reply(),
    {
        let cmd = match action {
            DeviceAction::KeyboardKeydown(k) => {
                self.press_key(k.code());
                CMD::KEYBOARD_ALL
            },
            DeviceAction::KeyboardKeyup(k) => {
                self.release_key(k.code());
                CMD::KEYBOARD_ALL
            },
            DeviceAction::MouseLeftClick(s) => {
                self.tx.data.put_i32(0, s.bits());
                CMD::MOUSE_LEFT
            },
            DeviceAction::MouseRightClick(s) => {
                self.tx.data.put_i32(0, s.bits());
                CMD::MOUSE_RIGHT
            },
            DeviceAction::MouseMiddleClick(s) | DeviceAction::MouseWheelClick(s) => {
                self.tx.data.put_i32(0, s.bits());
                CMD::MOUSE_MIDDLE
            },
            DeviceAction::MouseWheel(w) => {
                self.tx.data.put_i32(12, w.value());
                CMD::MOUSE_WHEEL
            },
            DeviceAction::MouseMove(dx, dy) => {
                self.tx.data.put_i32(4, dx);
                self.tx.data.put_i32(8, dy);
                CMD::MOUSE_MOVE
            },
            DeviceAction::MouseSide1Click(_) | DeviceAction::MouseSide2Click(_) => {
                return Err(KMBoxNetSendError(SendFailure::Unsupported(action.operation())));
            },
        };
        Ok(self.issue(cmd, nonce))
    }

    /// Whether the device has a command for the action.
    pub fn supports(action: DeviceAction) -> (r: bool)
        ensures
            r == command_for(action) is Some,
    {
        match action {
            DeviceAction::MouseSide1Click(_) | DeviceAction::MouseSide2Click(_) => false,
            _ => true,
        }
    }

    /// Carries out an action with a fresh nonce, as [`Session::perform_with_nonce`].
    /// An action that the device has no command for fails as unsupported; a
    /// supported one fails, with `NoRandomness`, only where the operating
    /// system gives no random nonce. On failure the session stays as it was.
    pub fn perform(&mut self, action: DeviceAction) -> (r: Result<Vec<u8>, KMBoxNetSendError>)
        ensures
            r is Ok ==> command_for(action) is Some,
            command_for(action) is None ==> (r matches Err(e) && e.0 == SendFailure::Unsupported(
                operation_of(action),
            )),
            command_for(action) is Some ==> (r matches Err(e) ==> e.0 is NoRandomness),
            r is Err ==> final(self).template() == old(self).template(),
            r matches Ok(frame) ==> final(self).template() == issued(
                old(self).template(),
                command_for(action)->Some_0,
                final(self).template().head.rand,
                payload_after(action, old(self).template().payload),
            ) && frame@ == packet_bytes(final(self).template()),
            final(self).last_reply() == old(self).last_reply(),
    {
        if !Self::supports(action) {
            return Err(KMBoxNetSendError(SendFailure::Unsupported(action.operation())));
        }
        match fresh_nonce() {
            Some(nonce) => self.perform_with_nonce(action, nonce),
            None => Err(KMBoxNetSendError(SendFailure::NoRandomness)),
        }
    }

    /// Turns the session into monitor mode. Consumes the session, so no
    /// command can follow. Returns the wire bytes of the MONITOR packet, whose
    /// nonce is made from the device port, and the port one above the device
    /// port, where the device will push its reports. Fails where the device
    /// port is the highest port.
    pub fn into_monitor(self, port: u16) -> (r: Result<(Vec<u8>, u16), KMBoxNetSendError>)
        ensures
            r is Ok <==> port < u16::MAX,
            r matches Ok((frame, monitor_port)) ==> monitor_port == port + 1 && frame@
                == packet_bytes(
                issued(self.template(), CMD::MONITOR, monitor_nonce(port), self.template().payload),
            ),
            r matches Err(e) ==> e.0 is NoMonitorPort,
    {
        if port == u16::MAX {
            return Err(KMBoxNetSendError(SendFailure::NoMonitorPort));
        }
        let mut session = self;
        let nonce = (port as u32 + 1) | (0xaa55u32 << 16u32);
        let frame = session.issue(CMD::MONITOR, nonce);
        Ok((frame, port + 1))
    }
}

/// The sequence number of the `k`-th packet of a run of issued packets.
proof fn lemma_sequence_at(
    run: Seq<PacketModel>,
    cmds: Seq<CMD>,
    nonces: Seq<u32>,
    payloads: Seq<Seq<u8>>,
    k: int,
)
    requires
        cmds.len() + 1 == run.len(),
        nonces.len() == cmds.len(),
        payloads.len() == cmds.len(),
        forall|j: int|
            0 <= j < cmds.len() ==> run[j + 1] == issued(
                #[trigger] run[j],
                cmds[j],
                nonces[j],
                payloads[j],
            ),
        0 <= k < run.len(),
    ensures
        run[k].head.indexpts == (run[0].head.indexpts + k) % 0x1_0000_0000,
        run[k].head.mac == run[0].head.mac,
    decreases k,
{
    if k > 0 {
        lemma_sequence_at(run, cmds, nonces, payloads, k - 1);
        let prev = run[k - 1];
        assert(run[k] == issued(prev, cmds[k - 1], nonces[k - 1], payloads[k - 1]));
        lemma_wrapping_step(run[0].head.indexpts, prev.head.indexpts, k);
    }
}

/// One more, modulo 2^32, after the `(k - 1)`-th successor of `x`.
proof fn lemma_wrapping_step(x: u32, p: u32, k: int)
    requires
        k > 0,
        p == (x + k - 1) % 0x1_0000_0000,
    ensures
        vstd::wrapping::u32_specs::wrapping_add(p, 1) == (x + k) % 0x1_0000_0000,
{
    vstd::arithmetic::div_mod::lemma_add_mod_noop(x + k - 1, 1, 0x1_0000_0000);
    vstd::arithmetic::div_mod::lemma_mod_self_0(0x1_0000_0000);
}

/// Sequence numbers of consecutive commands: where each packet of a run is
/// issued after the one before it, the `k`-th carries the first one's
/// sequence plus `k` (modulo 2^32), with no gap and no reuse within 2^32
/// commands, and all carry the same identity.
pub proof fn sequence_numbers_are_consecutive(
    run: Seq<PacketModel>,
    cmds: Seq<CMD>,
    nonces: Seq<u32>,
    payloads: Seq<Seq<u8>>,
)
    requires
        cmds.len() + 1 == run.len(),
        nonces.len() == cmds.len(),
        payloads.len() == cmds.len(),
        forall|k: int|
            0 <= k < cmds.len() ==> run[k + 1] == issued(
                #[trigger] run[k],
                cmds[k],
                nonces[k],
                payloads[k],
            ),
    ensures
        forall|k: int|
            0 <= k < run.len() ==> #[trigger] run[k].head.indexpts == (run[0].head.indexpts + k)
                % 0x1_0000_0000,
        forall|k: int| 0 <= k < run.len() ==> #[trigger] run[k].head.mac == run[0].head.mac,
{
    assert forall|k: int| 0 <= k < run.len() implies #[trigger] run[k].head.indexpts == (
    run[0].head.indexpts + k) % 0x1_0000_0000 && run[k].head.mac == run[0].head.mac by {
        lemma_sequence_at(run, cmds, nonces, payloads, k);
    }
}

/// A relative move writes exactly the motion fields of the mouse report: the
/// report afterwards holds `dx` and `dy` and every other field as before.
pub proof fn mouse_move_sets_only_motion(b: Seq<u8>, dx: i32, dy: i32)
    requires
        b.len() == PAYLOAD_SIZE,
    ensures
        mouse_of(payload_after(DeviceAction::MouseMove(dx, dy), b)) == (MouseModel {
            x: dx,
            y: dy,
            ..mouse_of(b)
        }),
        payload_after(DeviceAction::MouseMove(dx, dy), b).subrange(56, PAYLOAD_SIZE as int)
            == b.subrange(56, PAYLOAD_SIZE as int),
{
    let ux = #[verifier::truncate] (dx as u32);
    let uy = #[verifier::truncate] (dy as u32);
    let b1 = put_u32(b, 4, ux);
    let b2 = put_u32(b1, 8, uy);
    lemma_u32_round_trip(b, 4, ux);
    lemma_u32_round_trip(b1, 8, uy);
    assert(#[verifier::truncate] (ux as i32) == dx) by (bit_vector)
        requires
            ux == #[verifier::truncate] (dx as u32),
    ;
    assert(#[verifier::truncate] (uy as i32) == dy) by (bit_vector)
        requires
            uy == #[verifier::truncate] (dy as u32),
    ;
    assert(u32_at(b2, 4) == u32_at(b1, 4));
    assert(u32_at(b2, 0) == u32_at(b, 0));
    assert(u32_at(b2, 12) == u32_at(b, 12));
    assert(mouse_of(b2).point =~= mouse_of(b).point);
    assert(b2.subrange(56, PAYLOAD_SIZE as int) =~= b.subrange(56, PAYLOAD_SIZE as int));
}

} // verus!
