//! The network-attached device: its command registry, packet format and
//! request/reply session.

pub mod cmd;
pub mod errors;
pub mod session;
pub mod structs;

use vstd::prelude::*;
use vstd::string::StringSliceAdditionalSpecFns;

verus! {

/// Whether `c` is an ASCII hexadecimal digit, in either case.
pub open spec fn is_hex_digit(c: u8) -> bool {
    (0x30 <= c <= 0x39) || (0x41 <= c <= 0x46) || (0x61 <= c <= 0x66)
}

/// The value of a hexadecimal digit.
pub open spec fn hex_value(c: u8) -> u32 {
    if c <= 0x39 {
        (c - 0x30) as u32
    } else if c <= 0x46 {
        (c - 0x37) as u32
    } else {
        (c - 0x57) as u32
    }
}

/// The byte that the digit pair `b[2 * i]`, `b[2 * i + 1]` spells.
pub open spec fn pair_value(b: Seq<u8>, i: int) -> u32 {
    (hex_value(b[2 * i]) * 16 + hex_value(b[2 * i + 1])) as u32
}

/// Whether the first `n` characters of `b` are hexadecimal digits.
pub open spec fn hex_prefix(b: Seq<u8>, n: int) -> bool {
    n <= b.len() && forall|i: int| 0 <= i < n ==> is_hex_digit(#[trigger] b[i])
}

/// The identity that the first `len` digit pairs of `b` give: the first four
/// bytes they spell, packed big-endian (a pair not read counts as 0).
pub open spec fn identity_of(b: Seq<u8>, len: int) -> u32 {
    let d0: u32 = if 0 < len { pair_value(b, 0) } else { 0 };
    let d1: u32 = if 1 < len { pair_value(b, 1) } else { 0 };
    let d2: u32 = if 2 < len { pair_value(b, 2) } else { 0 };
    let d3: u32 = if 3 < len { pair_value(b, 3) } else { 0 };
    (d0 << 24u32) | (d1 << 16u32) | (d2 << 8u32) | d3
}

/// The value of one hexadecimal digit.
fn hex_digit(c: u8) -> (r: u32)
    requires
        is_hex_digit(c),
    ensures
        r == hex_value(c),
        r < 16,
{
    if c <= 0x39 {
        (c - 0x30) as u32
    } else if c <= 0x46 {
        (c - 0x37) as u32
    } else {
        (c - 0x57) as u32
    }
}

/// Derives the 32-bit identity from a hexadecimal device identifier: reads
/// `len` pairs of digits and packs the first four bytes big-endian.
pub fn to_hex(src: &str, len: usize) -> (r: u32)
    requires
        len <= 16,
        hex_prefix(src.spec_bytes(), 2 * len),
    ensures
        r == identity_of(src.spec_bytes(), len as int),
{
    let bytes = src.as_bytes();
    let mut dest: [u32; 16] = [0u32; 16];
    let mut i: usize = 0;
    while i < len
        invariant
            i <= len <= 16,
            bytes@ == src.spec_bytes(),
            hex_prefix(bytes@, 2 * len),
            dest@.len() == 16,
            forall|j: int| 0 <= j < i ==> dest@[j] == pair_value(bytes@, j),
            forall|j: int| i <= j < 16 ==> dest@[j] == 0,
        decreases len - i,
    {
        let s1 = hex_digit(bytes[2 * i]);
        let s2 = hex_digit(bytes[2 * i + 1]);
        dest[i] = s1 * 16 + s2;
        i = i + 1;
    }
    (dest[0] << 24u32) | (dest[1] << 16u32) | (dest[2] << 8u32) | dest[3]
}

/// The identity of a device identifier, or `None` where it does not start
/// with eight hexadecimal digits.
pub fn parse_identity(uuid: &str) -> (r: Option<u32>)
    ensures
        r is Some <==> hex_prefix(uuid.spec_bytes(), 8),
        r matches Some(v) ==> v == identity_of(uuid.spec_bytes(), 4),
{
    let bytes = uuid.as_bytes();
    if bytes.len() < 8 {
        return None;
    }
    let mut i: usize = 0;
    while i < 8
        invariant
            i <= 8 <= bytes@.len(),
            bytes@ == uuid.spec_bytes(),
            forall|j: int| 0 <= j < i ==> is_hex_digit(#[trigger] bytes@[j]),
        decreases 8 - i,
    {
        let c = bytes[i];
        if !((0x30 <= c && c <= 0x39) || (0x41 <= c && c <= 0x46) || (0x61 <= c && c <= 0x66)) {
            return None;
        }
        i = i + 1;
    }
    Some(to_hex(uuid, 4))
}

/// The identity depends on the identifier's text alone: two identifiers that
/// read the same derive the same identity.
pub proof fn identity_is_deterministic(a: &str, b: &str, len: int)
    requires
        a@ == b@,
    ensures
        identity_of(a.spec_bytes(), len) == identity_of(b.spec_bytes(), len),
{
}

/// Address, port and identifier of a device.
#[derive(Debug, Clone)]
pub struct KMBoxNetConfig {
    pub ip: String,
    pub port: u16,
    pub uuid: String,
}

/// The address that a device answers on out of the box.
pub open spec fn default_ip() -> Seq<char> {
    "192.168.2.188"@
}

/// The port that a device answers on out of the box.
pub const DEFAULT_PORT: u16 = 16824;

impl Default for KMBoxNetConfig {
    /// The factory address and port, with a placeholder identifier.
    fn default() -> (r: KMBoxNetConfig)
        ensures
            r.ip@ == default_ip(),
            r.port == DEFAULT_PORT,
            r.uuid@ == "XXXXXXXX"@,
    {
        proof {
            reveal_strlit("192.168.2.188");
            reveal_strlit("XXXXXXXX");
        }
        KMBoxNetConfig {
            ip: "192.168.2.188".to_owned(),
            port: DEFAULT_PORT,
            uuid: "XXXXXXXX".to_owned(),
        }
    }
}

impl KMBoxNetConfig {
    /// The factory address and port with the given identifier.
    pub fn default_with_uuid(uuid: &str) -> (r: KMBoxNetConfig)
        ensures
            r.ip@ == default_ip(),
            r.port == DEFAULT_PORT,
            r.uuid@ == uuid@,
    {
        Self::default().set_uuid(uuid.to_owned())
    }

    /// A configuration from its three parts.
    pub fn new(ip: &str, port: u16, uuid: &str) -> (r: KMBoxNetConfig)
        ensures
            r.ip@ == ip@,
            r.port == port,
            r.uuid@ == uuid@,
    {
        KMBoxNetConfig { ip: ip.to_owned(), port, uuid: uuid.to_owned() }
    }

    /// This configuration with another identifier.
    pub fn set_uuid(self, uuid: String) -> (r: KMBoxNetConfig)
        ensures
            r.ip == self.ip,
            r.port == self.port,
            r.uuid == uuid,
    {
        let mut c = self;
        c.uuid = uuid;
        c
    }
}

} // verus!
