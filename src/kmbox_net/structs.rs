use vstd::prelude::*;

verus! {

/// Bytes of the packet header: four little-endian `u32` words.
pub const HEAD_SIZE: usize = 16;

/// Bytes of the payload region.
pub const PAYLOAD_SIZE: usize = 1024;

/// Bytes of a whole packet: header then payload, no padding.
pub const PACKET_SIZE: usize = 1040;

/// The `u32` stored little-endian in `b[off..off + 4]`.
pub open spec fn u32_at(b: Seq<u8>, off: int) -> u32 {
    (b[off] as u32) | ((b[off + 1] as u32) << 8u32) | ((b[off + 2] as u32) << 16u32) | ((
    b[off + 3] as u32) << 24u32)
}

/// The `i32` stored little-endian (two's complement) in `b[off..off + 4]`.
pub open spec fn i32_at(b: Seq<u8>, off: int) -> i32 {
    u32_at(b, off) as i32
}

/// The four little-endian bytes of `v`.
pub open spec fn le_bytes(v: u32) -> Seq<u8> {
    seq![
        (v & 0xffu32) as u8,
        ((v >> 8u32) & 0xffu32) as u8,
        ((v >> 16u32) & 0xffu32) as u8,
        ((v >> 24u32) & 0xffu32) as u8,
    ]
}

/// `b` with `v` stored little-endian at `b[off..off + 4]`.
pub open spec fn put_u32(b: Seq<u8>, off: int, v: u32) -> Seq<u8> {
    b.update(off, le_bytes(v)[0]).update(off + 1, le_bytes(v)[1]).update(off + 2, le_bytes(v)[2]).update(
        off + 3,
        le_bytes(v)[3],
    )
}

/// Reading back a stored word gives the word.
pub proof fn lemma_u32_round_trip(b: Seq<u8>, off: int, v: u32)
    requires
        0 <= off,
        off + 4 <= b.len(),
    ensures
        u32_at(put_u32(b, off, v), off) == v,
        put_u32(b, off, v).len() == b.len(),
{
    let c = put_u32(b, off, v);
    assert(c[off] == (v & 0xffu32) as u8);
    assert(c[off + 1] == ((v >> 8u32) & 0xffu32) as u8);
    assert(c[off + 2] == ((v >> 16u32) & 0xffu32) as u8);
    assert(c[off + 3] == ((v >> 24u32) & 0xffu32) as u8);
    assert(v & 0xffu32 < 256 && (v >> 8u32) & 0xffu32 < 256 && (v >> 16u32) & 0xffu32 < 256 && (v
        >> 24u32) & 0xffu32 < 256) by (bit_vector);
    assert(v == (v & 0xffu32) | (((v >> 8u32) & 0xffu32) << 8u32) | (((v >> 16u32) & 0xffu32)
        << 16u32) | (((v >> 24u32) & 0xffu32) << 24u32)) by (bit_vector);
}

/// The bytes of a stored word are the bytes it was read from.
pub proof fn lemma_bytes_round_trip(b: Seq<u8>, off: int)
    requires
        0 <= off,
        off + 4 <= b.len(),
    ensures
        le_bytes(u32_at(b, off)) == b.subrange(off, off + 4),
{
    let x = u32_at(b, off);
    let s0 = b[off] as u32;
    let s1 = b[off + 1] as u32;
    let s2 = b[off + 2] as u32;
    let s3 = b[off + 3] as u32;
    assert(((x == s0 | (s1 << 8u32) | (s2 << 16u32) | (s3 << 24u32)) && s0 < 256 && s1 < 256 && s2
        < 256 && s3 < 256) ==> (s0 == (x & 0xffu32) && s1 == ((x >> 8u32) & 0xffu32) && s2 == ((x
        >> 16u32) & 0xffu32) && s3 == ((x >> 24u32) & 0xffu32))) by (bit_vector);
    assert(le_bytes(x) =~= b.subrange(off, off + 4));
}

/// The `u32` stored little-endian at `b[off..off + 4]`.
pub fn read_u32(b: &[u8], off: usize) -> (r: u32)
    requires
        off + 4 <= b@.len(),
    ensures
        r == u32_at(b@, off as int),
{
    (b[off] as u32) | ((b[off + 1] as u32) << 8u32) | ((b[off + 2] as u32) << 16u32) | ((b[off
        + 3] as u32) << 24u32)
}

/// Appends the four little-endian bytes of `v`.
pub fn push_u32(out: &mut Vec<u8>, v: u32)
    ensures
        final(out)@ == old(out)@ + le_bytes(v),
{
    out.push((v & 0xffu32) as u8);
    out.push(((v >> 8u32) & 0xffu32) as u8);
    out.push(((v >> 16u32) & 0xffu32) as u8);
    out.push(((v >> 24u32) & 0xffu32) as u8);
    assert(final(out)@ =~= old(out)@ + le_bytes(v));
}

/// Header of every packet.
#[derive(Debug, Clone, Copy, PartialEq, Eq, Structural)]
pub struct CmdHead {
    /// Identity derived from the device identifier.
    pub mac: u32,
    /// Nonce, drawn anew for each transmitted packet.
    pub rand: u32,
    /// Sequence number, one more for each transmitted command.
    pub indexpts: u32,
    /// Opcode of the command.
    pub cmd: u32,
}

/// The payload region. Its bytes are read and written through the mouse and
/// keyboard report layouts; which one is meant is decided by the opcode sent.
#[derive(Debug, Clone, Copy)]
pub struct CmdData {
    pub u8buff: [u8; 1024],
}

/// A whole packet: header and payload.
#[derive(Debug, Clone, Copy)]
pub struct ClientTx {
    pub head: CmdHead,
    pub data: CmdData,
}

/// Mouse report: button bits, relative motion, wheel and a trajectory.
#[derive(Debug, Clone, Copy)]
pub struct SoftMouse {
    pub button: i32,
    pub x: i32,
    pub y: i32,
    pub wheel: i32,
    pub point: [i32; 10],
}

/// Keyboard report: modifier byte, reserved byte and ten key slots (0 is empty).
#[derive(Debug, Clone, Copy)]
pub struct SoftKeyboard {
    pub ctrl: u8,
    pub resvel: u8,
    pub button: [u8; 10],
}

/// Mathematical model of a packet.
pub struct PacketModel {
    pub head: CmdHead,
    pub payload: Seq<u8>,
}

/// Mathematical model of a mouse report.
pub struct MouseModel {
    pub button: i32,
    pub x: i32,
    pub y: i32,
    pub wheel: i32,
    pub point: Seq<i32>,
}

/// Mathematical model of a keyboard report.
pub struct KeyboardModel {
    pub ctrl: u8,
    pub resvel: u8,
    pub button: Seq<u8>,
}

impl View for CmdData {
    type V = Seq<u8>;

    open spec fn view(&self) -> Seq<u8> {
        self.u8buff@
    }
}

impl View for ClientTx {
    type V = PacketModel;

    open spec fn view(&self) -> PacketModel {
        PacketModel { head: self.head, payload: self.data@ }
    }
}

impl View for SoftMouse {
    type V = MouseModel;

    open spec fn view(&self) -> MouseModel {
        MouseModel {
            button: self.button,
            x: self.x,
            y: self.y,
            wheel: self.wheel,
            point: self.point@,
        }
    }
}

impl View for SoftKeyboard {
    type V = KeyboardModel;

    open spec fn view(&self) -> KeyboardModel {
        KeyboardModel { ctrl: self.ctrl, resvel: self.resvel, button: self.button@ }
    }
}

/// The mouse report that the payload bytes hold: five words at offsets 0, 4,
/// 8, 12 and ten trajectory words from offset 16.
pub open spec fn mouse_of(b: Seq<u8>) -> MouseModel {
    MouseModel {
        button: i32_at(b, 0),
        x: i32_at(b, 4),
        y: i32_at(b, 8),
        wheel: i32_at(b, 12),
        point: Seq::new(10, |k: int| i32_at(b, 16 + 4 * k)),
    }
}

/// The keyboard report that the payload bytes hold: modifier, reserved byte
/// and the ten key slots at offsets 2 to 11.
pub open spec fn keyboard_of(b: Seq<u8>) -> KeyboardModel {
    KeyboardModel { ctrl: b[0], resvel: b[1], button: b.subrange(2, 12) }
}

/// The wire bytes of a packet: identity, nonce, sequence and opcode as
/// little-endian words, then the payload.
pub open spec fn packet_bytes(p: PacketModel) -> Seq<u8> {
    le_bytes(p.head.mac) + le_bytes(p.head.rand) + le_bytes(p.head.indexpts) + le_bytes(p.head.cmd)
        + p.payload
}

/// The packet that wire bytes hold.
pub open spec fn packet_of(b: Seq<u8>) -> PacketModel {
    PacketModel {
        head: CmdHead {
            mac: u32_at(b, 0),
            rand: u32_at(b, 4),
            indexpts: u32_at(b, 8),
            cmd: u32_at(b, 12),
        },
        payload: b.subrange(HEAD_SIZE as int, PACKET_SIZE as int),
    }
}

impl CmdData {
    /// A payload of zero bytes.
    pub fn zeroed() -> (r: CmdData)
        ensures
            r@ == Seq::new(PAYLOAD_SIZE as nat, |i: int| 0u8),
    {
        let r = CmdData { u8buff: [0u8; 1024] };
        assert(r@ =~= Seq::new(PAYLOAD_SIZE as nat, |i: int| 0u8));
        r
    }

    /// The payload read as a mouse report.
    pub fn get_cmd_mouse(&self) -> (r: SoftMouse)
        ensures
            r@ == mouse_of(self@),
    {
        let b = self.u8buff.as_slice();
        let mut point = [0i32; 10];
        let mut k: usize = 0;
        while k < 10
            invariant
                k <= 10,
                b@ == self@,
                self@.len() == PAYLOAD_SIZE,
                point@.len() == 10,
                forall|j: int| 0 <= j < k ==> point@[j] == i32_at(self@, 16 + 4 * j),
            decreases 10 - k,
        {
            point[k] = read_u32(b, 16 + 4 * k) as i32;
            k = k + 1;
        }
        let r = SoftMouse {
            button: read_u32(b, 0) as i32,
            x: read_u32(b, 4) as i32,
            y: read_u32(b, 8) as i32,
            wheel: read_u32(b, 12) as i32,
            point,
        };
        assert(r.point@ =~= mouse_of(self@).point);
        r
    }

    /// The payload read as a keyboard report.
    pub fn get_cmd_keyboard(&self) -> (r: SoftKeyboard)
        ensures
            r@ == keyboard_of(self@),
    {
        let mut button = [0u8; 10];
        let mut k: usize = 0;
        while k < 10
            invariant
                k <= 10,
                self@.len() == PAYLOAD_SIZE,
                button@.len() == 10,
                forall|j: int| 0 <= j < k ==> button@[j] == self@[2 + j],
            decreases 10 - k,
        {
            button[k] = self.u8buff[2 + k];
            k = k + 1;
        }
        let r = SoftKeyboard { ctrl: self.u8buff[0], resvel: self.u8buff[1], button };
        assert(r.button@ =~= keyboard_of(self@).button);
        r
    }

    /// Stores `v` little-endian at byte offset `off`.
    pub fn put_i32(&mut self, off: usize, v: i32)
        requires
            off + 4 <= PAYLOAD_SIZE,
        ensures
            final(self)@ == put_u32(old(self)@, off as int, v as u32),
    {
        let w = v as u32;
        self.u8buff[off] = (w & 0xffu32) as u8;
        self.u8buff[off + 1] = ((w >> 8u32) & 0xffu32) as u8;
        self.u8buff[off + 2] = ((w >> 16u32) & 0xffu32) as u8;
        self.u8buff[off + 3] = ((w >> 24u32) & 0xffu32) as u8;
    }

    /// Stores the byte `v` at offset `off`.
    pub fn put_u8(&mut self, off: usize, v: u8)
        requires
            off < PAYLOAD_SIZE,
        ensures
            final(self)@ == old(self)@.update(off as int, v),
    {
        self.u8buff[off] = v;
    }
}

impl ClientTx {
    /// The wire bytes of this packet.
    pub fn encode(&self) -> (r: Vec<u8>)
        ensures
            r@ == packet_bytes(self@),
            r@.len() == PACKET_SIZE,
    {
        let mut out: Vec<u8> = Vec::with_capacity(PACKET_SIZE);
        push_u32(&mut out, self.head.mac);
        push_u32(&mut out, self.head.rand);
        push_u32(&mut out, self.head.indexpts);
        push_u32(&mut out, self.head.cmd);
        let ghost head = out@;
        let mut i: usize = 0;
        while i < PAYLOAD_SIZE
            invariant
                i <= PAYLOAD_SIZE,
                self.data@.len() == PAYLOAD_SIZE,
                head == le_bytes(self.head.mac) + le_bytes(self.head.rand) + le_bytes(
                    self.head.indexpts,
                ) + le_bytes(self.head.cmd),
                out@ == head + self.data@.subrange(0, i as int),
            decreases PAYLOAD_SIZE - i,
        {
            out.push(self.data.u8buff[i]);
            assert(self.data@.subrange(0, i + 1) =~= self.data@.subrange(0, i as int).push(
                self.data@[i as int],
            ));
            i = i + 1;
        }
        assert(self.data@.subrange(0, PAYLOAD_SIZE as int) =~= self.data@);
        out
    }

    /// The packet that wire bytes hold; `None` unless there are exactly
    /// [`PACKET_SIZE`] of them.
    pub fn decode(bytes: &[u8]) -> (r: Option<ClientTx>)
        ensures
            r is Some <==> bytes@.len() == PACKET_SIZE,
            r matches Some(p) ==> p@ == packet_of(bytes@),
    {
        if bytes.len() != PACKET_SIZE {
            return None;
        }
        let head = CmdHead {
            mac: read_u32(bytes, 0),
            rand: read_u32(bytes, 4),
            indexpts: read_u32(bytes, 8),
            cmd: read_u32(bytes, 12),
        };
        let mut buf = [0u8; 1024];
        let mut i: usize = 0;
        while i < PAYLOAD_SIZE
            invariant
                i <= PAYLOAD_SIZE,
                bytes@.len() == PACKET_SIZE,
                buf@.len() == PAYLOAD_SIZE,
                forall|j: int| 0 <= j < i ==> buf@[j] == bytes@[HEAD_SIZE + j],
            decreases PAYLOAD_SIZE - i,
        {
            buf[i] = bytes[HEAD_SIZE + i];
            i = i + 1;
        }
        let p = ClientTx { head, data: CmdData { u8buff: buf } };
        assert(p.data@ =~= bytes@.subrange(HEAD_SIZE as int, PACKET_SIZE as int));
        Some(p)
    }
}

/// Decoding the encoding of a packet gives the packet back.
pub proof fn decode_encode_round_trip(p: PacketModel)
    requires
        p.payload.len() == PAYLOAD_SIZE,
    ensures
        packet_bytes(p).len() == PACKET_SIZE,
        packet_of(packet_bytes(p)) == p,
{
    let b = packet_bytes(p);
    lemma_u32_round_trip(Seq::new(4, |i: int| 0u8), 0, p.head.mac);
    let z = Seq::new(4, |i: int| 0u8);
    assert(put_u32(z, 0, p.head.mac) =~= le_bytes(p.head.mac));
    assert(put_u32(z, 0, p.head.rand) =~= le_bytes(p.head.rand));
    assert(put_u32(z, 0, p.head.indexpts) =~= le_bytes(p.head.indexpts));
    assert(put_u32(z, 0, p.head.cmd) =~= le_bytes(p.head.cmd));
    lemma_u32_round_trip(z, 0, p.head.rand);
    lemma_u32_round_trip(z, 0, p.head.indexpts);
    lemma_u32_round_trip(z, 0, p.head.cmd);
    assert(b.subrange(0, 4) =~= le_bytes(p.head.mac));
    assert(b.subrange(4, 8) =~= le_bytes(p.head.rand));
    assert(b.subrange(8, 12) =~= le_bytes(p.head.indexpts));
    assert(b.subrange(12, 16) =~= le_bytes(p.head.cmd));
    assert(u32_at(b, 0) == u32_at(le_bytes(p.head.mac), 0));
    assert(u32_at(b, 4) == u32_at(le_bytes(p.head.rand), 0));
    assert(u32_at(b, 8) == u32_at(le_bytes(p.head.indexpts), 0));
    assert(u32_at(b, 12) == u32_at(le_bytes(p.head.cmd), 0));
    assert(b.subrange(HEAD_SIZE as int, PACKET_SIZE as int) =~= p.payload);
}

/// Encoding the packet that wire bytes hold gives the bytes back.
pub proof fn encode_decode_round_trip(b: Seq<u8>)
    requires
        b.len() == PACKET_SIZE,
    ensures
        packet_bytes(packet_of(b)) == b,
{
    lemma_bytes_round_trip(b, 0);
    lemma_bytes_round_trip(b, 4);
    lemma_bytes_round_trip(b, 8);
    lemma_bytes_round_trip(b, 12);
    assert(packet_bytes(packet_of(b)) =~= b);
}

/// Bytes of a monitor datagram: a mouse report then a keyboard report.
pub const MONITOR_SIZE: usize = 32;

/// Mouse report that the device pushes in monitor mode: a report-id byte,
/// then button bits, motion and wheel as words from offset 4.
#[derive(Debug, Clone, Copy, PartialEq, Eq, Structural)]
pub struct MonitorMouseData {
    pub report_id: u8,
    pub button: i32,
    pub x: i32,
    pub y: i32,
    pub wheel: i32,
}

/// Keyboard report that the device pushes in monitor mode: a report-id
/// byte, the modifier byte and ten key slots.
#[derive(Debug, Clone, Copy)]
pub struct MonitorKeyboardData {
    pub report_id: u8,
    pub buttons: u8,
    pub data: [u8; 10],
}

/// One monitor datagram: the mouse report (bytes 0 to 19) and the keyboard
/// report (bytes 20 to 31).
#[derive(Debug, Clone, Copy)]
pub struct MonitorData {
    pub mouse: MonitorMouseData,
    pub keyboard: MonitorKeyboardData,
}

/// Whether `m` is the monitor datagram that the bytes `b` hold.
pub open spec fn monitor_matches(m: MonitorData, b: Seq<u8>) -> bool {
    &&& m.mouse == MonitorMouseData {
        report_id: b[0],
        button: i32_at(b, 4),
        x: i32_at(b, 8),
        y: i32_at(b, 12),
        wheel: i32_at(b, 16),
    }
    &&& m.keyboard.report_id == b[20]
    &&& m.keyboard.buttons == b[21]
    &&& m.keyboard.data@ == b.subrange(22, 32)
}

impl MonitorData {
    /// The reports that a monitor datagram holds; `None` unless it is
    /// exactly [`MONITOR_SIZE`] bytes.
    pub fn decode(bytes: &[u8]) -> (r: Option<MonitorData>)
        ensures
            r is Some <==> bytes@.len() == MONITOR_SIZE,
            r matches Some(m) ==> monitor_matches(m, bytes@),
    {
        if bytes.len() != MONITOR_SIZE {
            return None;
        }
        let mouse = MonitorMouseData {
            report_id: bytes[0],
            button: read_u32(bytes, 4) as i32,
            x: read_u32(bytes, 8) as i32,
            y: read_u32(bytes, 12) as i32,
            wheel: read_u32(bytes, 16) as i32,
        };
        let mut data = [0u8; 10];
        let mut k: usize = 0;
        while k < 10
            invariant
                k <= 10,
                bytes@.len() == MONITOR_SIZE,
                data@.len() == 10,
                forall|j: int| 0 <= j < k ==> data@[j] == bytes@[22 + j],
            decreases 10 - k,
        {
            data[k] = bytes[22 + k];
            k = k + 1;
        }
        assert(data@ =~= bytes@.subrange(22, 32));
        let keyboard = MonitorKeyboardData { report_id: bytes[20], buttons: bytes[21], data };
        Some(MonitorData { mouse, keyboard })
    }
}

} // verus!
