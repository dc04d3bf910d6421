//! Frame codec: the Modbus-style CRC-16 checksum, the fixed command frames
//! and reply tokens of the wire protocol, and the two identity decoders.
//!
//! Binary frames are {address, function, payload, 16-bit checksum}; the
//! checksum is computed over all preceding bytes with polynomial 0xA001 and
//! initial value 0xFFFF, and appended little-endian. ASCII commands and
//! replies are fixed literal byte strings. The two request frames that the
//! session sends never vary, so they are given verbatim with their checksums
//! embedded; tests hold each embedded checksum to the CRC-16 function through
//! the verified trailer validator.

use vstd::prelude::*;

verus! {

// --- CRC-16 (polynomial 0xA001, initial value 0xFFFF) ---

/// One shift-and-conditionally-xor round of the CRC bit loop.
pub open spec fn crc16_bit(c: u16) -> u16 {
    if c & 1 == 1 {
        (c >> 1) ^ 0xA001
    } else {
        c >> 1
    }
}

/// `rounds` applications of the bit round to `c`.
pub open spec fn crc16_bits(c: u16, rounds: nat) -> u16
    decreases rounds,
{
    if rounds == 0 {
        c
    } else {
        crc16_bit(crc16_bits(c, (rounds - 1) as nat))
    }
}

/// Folding one input byte into the running checksum: xor it in, then run
/// eight bit rounds.
pub open spec fn crc16_byte(c: u16, b: u8) -> u16 {
    crc16_bits(c ^ (b as u16), 8)
}

/// The checksum of the first `n` bytes of `s`.
pub open spec fn crc16_prefix(s: Seq<u8>, n: nat) -> u16
    decreases n,
{
    if n == 0 {
        0xFFFF
    } else {
        crc16_byte(crc16_prefix(s, (n - 1) as nat), s[n - 1])
    }
}

/// The CRC-16 checksum of a byte sequence.
pub open spec fn crc16_of(s: Seq<u8>) -> u16 {
    crc16_prefix(s, s.len())
}

/// Computes the CRC-16 checksum of `data`.
pub fn crc16(data: &[u8]) -> (r: u16)
    ensures
        r == crc16_of(data@),
{
    let mut crc: u16 = 0xFFFF;
    let mut i: usize = 0;
    while i < data.len()
        invariant
            i <= data@.len(),
            crc == crc16_prefix(data@, i as nat),
        decreases data@.len() - i,
    {
        let ghost entry = (crc ^ (data@[i as int] as u16)) as u16;
        crc = crc ^ (data[i] as u16);
        let mut j: usize = 0;
        while j < 8
            invariant
                j <= 8,
                crc == crc16_bits(entry, j as nat),
            decreases 8 - j,
        {
            if crc & 1 == 1 {
                crc = (crc >> 1) ^ 0xA001;
            } else {
                crc = crc >> 1;
            }
            j = j + 1;
        }
        i = i + 1;
    }
    crc
}

/// The trailing two bytes of `s` hold, little-endian, the CRC-16 checksum of
/// everything before them.
pub open spec fn crc16_trailer_valid(s: Seq<u8>) -> bool {
    &&& s.len() >= 2
    &&& s[s.len() - 2] == (crc16_of(s.take(s.len() - 2)) & 0xFF) as u8
    &&& s[s.len() - 1] == (crc16_of(s.take(s.len() - 2)) >> 8) as u8
}

/// Checks that the last two bytes of `frame` are the little-endian CRC-16 of
/// the bytes before them.
pub fn check_crc16_trailer(frame: &[u8]) -> (r: bool)
    requires
        frame@.len() >= 2,
    ensures
        r == crc16_trailer_valid(frame@),
{
    let n = frame.len();
    let body = vstd::slice::slice_subrange(frame, 0, n - 2);
    let c = crc16(body);
    frame[n - 2] == (c & 0xFF) as u8 && frame[n - 1] == (c >> 8) as u8
}

// --- big-endian field extraction ---

/// A 16-bit value from two bytes, first byte most significant.
pub open spec fn be16(hi: u8, lo: u8) -> u16 {
    ((hi as int) * 0x100 + (lo as int)) as u16
}

/// A 32-bit value from four bytes, first byte most significant.
pub open spec fn be32(b3: u8, b2: u8, b1: u8, b0: u8) -> u32 {
    ((b3 as int) * 0x1000000 + (b2 as int) * 0x10000 + (b1 as int) * 0x100 + (b0 as int)) as u32
}

/// Assembles a 16-bit value from two bytes, `hi` most significant.
pub fn be16_of(hi: u8, lo: u8) -> (r: u16)
    ensures
        r == be16(hi, lo),
{
    (hi as u16) * 0x100 + (lo as u16)
}

/// Assembles a 32-bit value from four bytes, `b3` most significant.
pub fn be32_of(b3: u8, b2: u8, b1: u8, b0: u8) -> (r: u32)
    ensures
        r == be32(b3, b2, b1, b0),
{
    (b3 as u32) * 0x1000000 + (b2 as u32) * 0x10000 + (b1 as u32) * 0x100 + (b0 as u32)
}

// --- fixed commands, frames and reply tokens ---

/// ASCII query command sent to probe for bootloader mode: `queryd\r\n`.
pub open spec fn query_command() -> Seq<u8> {
    seq![0x71u8, 0x75, 0x65, 0x72, 0x79, 0x64, 0x0D, 0x0A]
}

/// ASCII reply acknowledging bootloader mode: `boot`.
pub open spec fn boot_token() -> Seq<u8> {
    seq![0x62u8, 0x6F, 0x6F, 0x74]
}

/// ASCII command asking the bootloader for device information: `getinf\r\n`.
pub open spec fn info_command() -> Seq<u8> {
    seq![0x67u8, 0x65, 0x74, 0x69, 0x6E, 0x66, 0x0D, 0x0A]
}

/// Prefix of the bootloader's information reply: `inf`.
pub open spec fn info_prefix() -> Seq<u8> {
    seq![0x69u8, 0x6E, 0x66]
}

/// ASCII command starting the firmware transfer: `upfirm\r\n`.
pub open spec fn start_command() -> Seq<u8> {
    seq![0x75u8, 0x70, 0x66, 0x69, 0x72, 0x6D, 0x0D, 0x0A]
}

/// ASCII reply announcing readiness for the transfer: `upredy`.
pub open spec fn ready_token() -> Seq<u8> {
    seq![0x75u8, 0x70, 0x72, 0x65, 0x64, 0x79]
}

/// ASCII acknowledgment of one firmware chunk: `OK`.
pub open spec fn ok_token() -> Seq<u8> {
    seq![0x4Fu8, 0x4B]
}

/// Binary request reading the 4 holding registers that start at register 0
/// (device address 1, function 3), checksum embedded.
pub open spec fn read_registers_frame() -> Seq<u8> {
    seq![0x01u8, 0x03, 0x00, 0x00, 0x00, 0x04, 0x44, 0x09]
}

/// Binary request writing register 0x0100 := 0x1601 (device address 1,
/// function 6) to command a reboot into the bootloader, checksum embedded.
pub open spec fn reboot_frame() -> Seq<u8> {
    seq![0x01u8, 0x06, 0x01, 0x00, 0x16, 0x01, 0x47, 0x96]
}

/// Single-byte acknowledgment of the reboot request.
pub open spec fn reboot_ack() -> Seq<u8> {
    seq![0xFCu8]
}

pub fn make_query_command() -> (r: Vec<u8>)
    ensures
        r@ == query_command(),
{
    let r: Vec<u8> = vec![0x71u8, 0x75, 0x65, 0x72, 0x79, 0x64, 0x0D, 0x0A];
    proof {
        assert(r@ =~= query_command());
    }
    r
}

pub fn make_info_command() -> (r: Vec<u8>)
    ensures
        r@ == info_command(),
{
    let r: Vec<u8> = vec![0x67u8, 0x65, 0x74, 0x69, 0x6E, 0x66, 0x0D, 0x0A];
    proof {
        assert(r@ =~= info_command());
    }
    r
}

pub fn make_start_command() -> (r: Vec<u8>)
    ensures
        r@ == start_command(),
{
    let r: Vec<u8> = vec![0x75u8, 0x70, 0x66, 0x69, 0x72, 0x6D, 0x0D, 0x0A];
    proof {
        assert(r@ =~= start_command());
    }
    r
}

pub fn make_boot_token() -> (r: Vec<u8>)
    ensures
        r@ == boot_token(),
{
    let r: Vec<u8> = vec![0x62u8, 0x6F, 0x6F, 0x74];
    proof {
        assert(r@ =~= boot_token());
    }
    r
}

pub fn make_ready_token() -> (r: Vec<u8>)
    ensures
        r@ == ready_token(),
{
    let r: Vec<u8> = vec![0x75u8, 0x70, 0x72, 0x65, 0x64, 0x79];
    proof {
        assert(r@ =~= ready_token());
    }
    r
}

pub fn make_ok_token() -> (r: Vec<u8>)
    ensures
        r@ == ok_token(),
{
    let r: Vec<u8> = vec![0x4Fu8, 0x4B];
    proof {
        assert(r@ =~= ok_token());
    }
    r
}

pub fn make_read_registers_frame() -> (r: Vec<u8>)
    ensures
        r@ == read_registers_frame(),
{
    let r: Vec<u8> = vec![0x01u8, 0x03, 0x00, 0x00, 0x00, 0x04, 0x44, 0x09];
    proof {
        assert(r@ =~= read_registers_frame());
    }
    r
}

pub fn make_reboot_frame() -> (r: Vec<u8>)
    ensures
        r@ == reboot_frame(),
{
    let r: Vec<u8> = vec![0x01u8, 0x06, 0x01, 0x00, 0x16, 0x01, 0x47, 0x96];
    proof {
        assert(r@ =~= reboot_frame());
    }
    r
}

/// Byte-exact comparison of a received reply against an expected token.
pub fn bytes_eq(a: &[u8], b: &[u8]) -> (r: bool)
    ensures
        r == (a@ == b@),
{
    if a.len() != b.len() {
        proof {
            assert(a@.len() != b@.len());
        }
        return false;
    }
    let mut i: usize = 0;
    while i < a.len()
        invariant
            a@.len() == b@.len(),
            i <= a@.len(),
            forall|k: int| 0 <= k < i ==> a@[k] == b@[k],
        decreases a@.len() - i,
    {
        if a[i] != b[i] {
            return false;
        }
        i = i + 1;
    }
    proof {
        assert(a@ =~= b@);
    }
    true
}

// --- identity decoding ---

/// Shape check for the reply to the read-registers request: 13 bytes, header
/// {address 1, function 3, byte count 8}, and a valid CRC-16 trailer.
pub open spec fn legacy_response_valid(s: Seq<u8>) -> bool {
    &&& s.len() == 13
    &&& s[0] == 0x01
    &&& s[1] == 0x03
    &&& s[2] == 0x08
    &&& crc16_trailer_valid(s)
}

/// Model code carried by a legacy (pre-bootloader) response: big-endian at
/// offsets 3 and 4.
pub open spec fn legacy_model(s: Seq<u8>) -> u16
    recommends
        s.len() == 13,
{
    be16(s[3], s[4])
}

/// Firmware version carried by a legacy response, in hundredths: the byte at
/// offset 10.
pub open spec fn legacy_version(s: Seq<u8>) -> u8
    recommends
        s.len() == 13,
{
    s[10]
}

/// Validates a legacy response: exact shape and checksum.
pub fn check_legacy_response(resp: &[u8]) -> (r: bool)
    ensures
        r == legacy_response_valid(resp@),
{
    if resp.len() != 13 {
        return false;
    }
    if !(resp[0] == 0x01 && resp[1] == 0x03 && resp[2] == 0x08) {
        return false;
    }
    check_crc16_trailer(resp)
}

/// Extracts model code and firmware version (hundredths) from a legacy
/// response.
pub fn decode_legacy_identity(resp: &[u8]) -> (r: (u16, u8))
    requires
        resp@.len() == 13,
    ensures
        r.0 == legacy_model(resp@),
        r.1 == legacy_version(resp@),
{
    (be16_of(resp[3], resp[4]), resp[10])
}

/// Shape check for the bootloader's information reply: 13 bytes starting with
/// the ASCII `inf` prefix.
pub open spec fn info_response_valid(s: Seq<u8>) -> bool {
    &&& s.len() == 13
    &&& s.take(3) == info_prefix()
}

/// Serial number carried by an information reply: 32-bit value assembled
/// big-endian from the bytes at offsets 6, 5, 4, 3 in that order (offset 6
/// most significant).
pub open spec fn info_serial(s: Seq<u8>) -> u32
    recommends
        s.len() == 13,
{
    be32(s[6], s[5], s[4], s[3])
}

/// Model code carried by an information reply: big-endian at offsets 8 and 7
/// (offset 8 most significant — the byte order is reversed relative to the
/// legacy decode; the device protocol really is asymmetric here).
pub open spec fn info_model(s: Seq<u8>) -> u16
    recommends
        s.len() == 13,
{
    be16(s[8], s[7])
}

/// Firmware version carried by an information reply, in hundredths: the byte
/// at offset 11.
pub open spec fn info_version(s: Seq<u8>) -> u8
    recommends
        s.len() == 13,
{
    s[11]
}

/// Validates an information reply: exactly 13 bytes behind the `inf` prefix.
pub fn check_info_response(resp: &[u8]) -> (r: bool)
    ensures
        r == info_response_valid(resp@),
{
    if resp.len() != 13 {
        return false;
    }
    let ok = resp[0] == 0x69 && resp[1] == 0x6E && resp[2] == 0x66;
    proof {
        if ok {
            assert(resp@.take(3) =~= info_prefix());
        } else {
            assert(resp@.take(3) != info_prefix()) by {
                if resp@.take(3) == info_prefix() {
                    assert(resp@.take(3)[0] == 0x69 && resp@.take(3)[1] == 0x6E && resp@.take(3)[2]
                        == 0x66);
                }
            }
        }
    }
    ok
}

/// Extracts serial number, model code and firmware version (hundredths) from
/// an information reply.
pub fn decode_info_identity(resp: &[u8]) -> (r: (u16, u8, u32))
    requires
        resp@.len() == 13,
    ensures
        r.0 == info_model(resp@),
        r.1 == info_version(resp@),
        r.2 == info_serial(resp@),
{
    (be16_of(resp[8], resp[7]), resp[11], be32_of(resp[6], resp[5], resp[4], resp[3]))
}

} // verus!
