//! Gran Turismo 7 / GT Sport UDP packets: Salsa20 decryption and field
//! extraction.
//!
//! The console broadcasts Salsa20/20-encrypted packets. The 8-byte nonce is
//! derived from the four raw bytes at `0x40`: `iv1 = LE_u32(raw[0x40..0x44])`,
//! `iv2 = iv1 ^ xor_key`, nonce = `iv2_le ++ iv1_le`; the key is the first 32
//! bytes of `"Simulator Interface Packet GT7 ver 0.0"`.
use crate::bytes::{le_u32, u32_le_bytes, read_u32_le, read_float_bits_finite, read_u16_le, read_i32_le, finite_or_zero, le_u16, le_i32};
use crate::error::TelemetryError;
use vstd::prelude::*;
use vstd::string::is_ascii;

verus! {

/// UDP port on which GT7 broadcasts telemetry.
pub const GT7_RECV_PORT: u16 = 33740;

/// UDP port to which heartbeats are sent to keep the stream alive.
pub const GT7_SEND_PORT: u16 = 33739;

/// Size of a standard (type 1) packet.
pub const PACKET_SIZE: usize = 296;

/// Size of an extended (type 2) packet.
pub const PACKET_SIZE_TYPE2: usize = 316;

/// Size of a full (type 3) packet.
pub const PACKET_SIZE_TYPE3: usize = 344;

/// Largest packet of any known type.
pub const MAX_PACKET_SIZE: usize = 344;

/// Magic word at offset 0 of a correctly decrypted packet ("0S7G").
pub const MAGIC: u32 = 0x4737_5330;

/// Offset of the magic word.
pub const OFF_MAGIC: usize = 0;

/// Offset of the raw nonce seed.
pub const OFF_IV: usize = 0x40;

pub const XOR_KEY_TYPE1: u32 = 0xDEAD_BEAF;

pub const XOR_KEY_TYPE2: u32 = 0xDEAD_BEEF;

pub const XOR_KEY_TYPE3: u32 = 0x55FA_BB4F;

// ── Salsa20 model ────────────────────────────────────────────────────────────

/// Addition modulo 2^32.
pub open spec fn wadd(x: u32, y: u32) -> u32 {
    if x + y > u32::MAX {
        (x + y - 0x1_0000_0000) as u32
    } else {
        (x + y) as u32
    }
}

/// Left rotation of a 32-bit word by `n` bits, `0 < n < 32`.
pub open spec fn rotl(x: u32, n: u32) -> u32 {
    (x << n) | (x >> ((32 - n) as u32))
}

/// The Salsa20 quarter-round on slots `a, b, c, d` of the state.
pub open spec fn quarter_round(s: Seq<u32>, a: int, b: int, c: int, d: int) -> Seq<u32> {
    let s1 = s.update(b, s[b] ^ rotl(wadd(s[a], s[d]), 7));
    let s2 = s1.update(c, s1[c] ^ rotl(wadd(s1[b], s1[a]), 9));
    let s3 = s2.update(d, s2[d] ^ rotl(wadd(s2[c], s2[b]), 13));
    s3.update(a, s3[a] ^ rotl(wadd(s3[d], s3[c]), 18))
}

/// One Salsa20 double round: a column round followed by a row round.
pub open spec fn double_round(s: Seq<u32>) -> Seq<u32> {
    let c1 = quarter_round(s, 0, 4, 8, 12);
    let c2 = quarter_round(c1, 5, 9, 13, 1);
    let c3 = quarter_round(c2, 10, 14, 2, 6);
    let c4 = quarter_round(c3, 15, 3, 7, 11);
    let r1 = quarter_round(c4, 0, 1, 2, 3);
    let r2 = quarter_round(r1, 5, 6, 7, 4);
    let r3 = quarter_round(r2, 10, 11, 8, 9);
    quarter_round(r3, 15, 12, 13, 14)
}

/// `n` double rounds applied to `s`.
pub open spec fn double_rounds(s: Seq<u32>, n: nat) -> Seq<u32>
    decreases n,
{
    if n == 0 {
        s
    } else {
        double_round(double_rounds(s, (n - 1) as nat))
    }
}

/// The initial Salsa20 state for a 32-byte key, an 8-byte nonce and a block
/// counter.
pub open spec fn initial_state(key: Seq<u8>, nonce: Seq<u8>, counter: u64) -> Seq<u32> {
    seq![
        0x6170_7865u32,
        le_u32(key, 0) as u32,
        le_u32(key, 4) as u32,
        le_u32(key, 8) as u32,
        le_u32(key, 12) as u32,
        0x3320_646eu32,
        le_u32(nonce, 0) as u32,
        le_u32(nonce, 4) as u32,
        (counter % 0x1_0000_0000) as u32,
        (counter / 0x1_0000_0000) as u32,
        0x7962_2d32u32,
        le_u32(key, 16) as u32,
        le_u32(key, 20) as u32,
        le_u32(key, 24) as u32,
        le_u32(key, 28) as u32,
        0x6b20_6574u32,
    ]
}

/// The sixteen output words of one Salsa20/20 block: twenty rounds, then the
/// initial state added back word by word.
pub open spec fn block_words(key: Seq<u8>, nonce: Seq<u8>, counter: u64) -> Seq<u32> {
    let init = initial_state(key, nonce, counter);
    let mixed = double_rounds(init, 10);
    Seq::new(16, |i: int| wadd(mixed[i], init[i]))
}

/// Byte `k` (0 = least significant) of a word.
pub open spec fn word_byte(w: u32, k: int) -> u8 {
    if k == 0 {
        (w % 256) as u8
    } else if k == 1 {
        ((w / 256) % 256) as u8
    } else if k == 2 {
        ((w / 65536) % 256) as u8
    } else {
        ((w / 16777216) % 256) as u8
    }
}

/// The 64 keystream bytes of one block: the output words serialized
/// little-endian.
pub open spec fn block_bytes(key: Seq<u8>, nonce: Seq<u8>, counter: u64) -> Seq<u8> {
    Seq::new(64, |j: int| word_byte(block_words(key, nonce, counter)[j / 4], j % 4))
}

/// Keystream byte at absolute position `i`.
pub open spec fn keystream_byte(key: Seq<u8>, nonce: Seq<u8>, i: int) -> u8 {
    block_bytes(key, nonce, (i / 64) as u64)[i % 64]
}

/// The GT7 key: "Simulator Interface Packet GT7 v".
pub open spec fn gt7_key() -> Seq<u8> {
    seq![
        83u8, 105, 109, 117, 108, 97, 116, 111, 114, 32, 73, 110, 116, 101, 114, 102,
        97, 99, 101, 32, 80, 97, 99, 107, 101, 116, 32, 71, 84, 55, 32, 118,
    ]
}

/// The nonce that a raw packet carries for a given XOR key.
pub open spec fn gt7_nonce(raw: Seq<u8>, xor_key: u32) -> Seq<u8> {
    let iv1 = le_u32(raw, OFF_IV as int) as u32;
    u32_le_bytes((iv1 ^ xor_key) as int) + u32_le_bytes(iv1 as int)
}

/// The packet XORed with the keystream its own nonce seed selects.
pub open spec fn gt7_crypt(raw: Seq<u8>, xor_key: u32) -> Seq<u8> {
    Seq::new(
        raw.len(),
        |i: int| raw[i] ^ keystream_byte(gt7_key(), gt7_nonce(raw, xor_key), i),
    )
}

/// The buffer with its four nonce-seed bytes replaced by those of `from`.
pub open spec fn restore_iv(buf: Seq<u8>, from: Seq<u8>) -> Seq<u8> {
    Seq::new(
        buf.len(),
        |i: int|
            if OFF_IV as int <= i < OFF_IV as int + 4 {
                from[i]
            } else {
                buf[i]
            },
    )
}

fn rotate_left(x: u32, n: u32) -> (r: u32)
    requires
        0 < n < 32,
    ensures
        r == rotl(x, n),
{
    (x << n) | (x >> (32 - n))
}

/// Salsa20 quarter-round operating on indexed slots of the state array.
fn qr(s: &mut [u32; 16], a: usize, b: usize, c: usize, d: usize)
    requires
        a < 16,
        b < 16,
        c < 16,
        d < 16,
    ensures
        final(s)@ == quarter_round(old(s)@, a as int, b as int, c as int, d as int),
{
    let t = s[b] ^ rotate_left(s[a].wrapping_add(s[d]), 7);
    s[b] = t;
    let t = s[c] ^ rotate_left(s[b].wrapping_add(s[a]), 9);
    s[c] = t;
    let t = s[d] ^ rotate_left(s[c].wrapping_add(s[b]), 13);
    s[d] = t;
    let t = s[a] ^ rotate_left(s[d].wrapping_add(s[c]), 18);
    s[a] = t;
}

fn double_round_in_place(s: &mut [u32; 16])
    ensures
        final(s)@ == double_round(old(s)@),
{
    qr(s, 0, 4, 8, 12);
    qr(s, 5, 9, 13, 1);
    qr(s, 10, 14, 2, 6);
    qr(s, 15, 3, 7, 11);
    qr(s, 0, 1, 2, 3);
    qr(s, 5, 6, 7, 4);
    qr(s, 10, 11, 8, 9);
    qr(s, 15, 12, 13, 14);
}


/// Generate one 64-byte Salsa20 keystream block for the given counter value.
pub fn salsa20_block(key: &[u8; 32], nonce: &[u8; 8], counter: u64) -> (out: [u8; 64])
    ensures
        out@ == block_bytes(key@, nonce@, counter),
{
    let ks = key.as_slice();
    let ns = nonce.as_slice();
    let mut state = [0u32; 16];
    state[0] = 0x6170_7865;
    state[1] = read_u32_le(ks, 0);
    state[2] = read_u32_le(ks, 4);
    state[3] = read_u32_le(ks, 8);
    state[4] = read_u32_le(ks, 12);
    state[5] = 0x3320_646e;
    state[6] = read_u32_le(ns, 0);
    state[7] = read_u32_le(ns, 4);
    state[8] = (counter % 0x1_0000_0000) as u32;
    state[9] = (counter / 0x1_0000_0000) as u32;
    state[10] = 0x7962_2d32;
    state[11] = read_u32_le(ks, 16);
    state[12] = read_u32_le(ks, 20);
    state[13] = read_u32_le(ks, 24);
    state[14] = read_u32_le(ks, 28);
    state[15] = 0x6b20_6574;
    let ghost init = initial_state(key@, nonce@, counter);
    assert(state@ =~= init);

    let mut working = state;
    let mut round: usize = 0;
    while round < 10
        invariant
            round <= 10,
            state@ == init,
            working@ == double_rounds(init, round as nat),
        decreases 10 - round,
    {
        double_round_in_place(&mut working);
        round = round + 1;
    }
    let ghost mixed = working@;
    assert(mixed == double_rounds(init, 10));

    let mut i: usize = 0;
    while i < 16
        invariant
            i <= 16,
            state@ == init,
            working@.len() == 16,
            forall|j: int| 0 <= j < i ==> working@[j] == wadd(mixed[j], init[j]),
            forall|j: int| i <= j < 16 ==> working@[j] == mixed[j],
        decreases 16 - i,
    {
        working[i] = working[i].wrapping_add(state[i]);
        i = i + 1;
    }
    let ghost words = block_words(key@, nonce@, counter);
    assert(working@ =~= words);

    let mut out = [0u8; 64];
    let mut w: usize = 0;
    while w < 16
        invariant
            w <= 16,
            working@ == words,
            out@.len() == 64,
            forall|v: int, k: int|
                0 <= v < w && 0 <= k < 4 ==> #[trigger] out@[4 * v + k] == word_byte(words[v], k),
        decreases 16 - w,
    {
        let x = working[w];
        out[4 * w] = (x % 256) as u8;
        out[4 * w + 1] = ((x / 256) % 256) as u8;
        out[4 * w + 2] = ((x / 65536) % 256) as u8;
        out[4 * w + 3] = ((x / 16777216) % 256) as u8;
        proof {
            assert forall|v: int, k: int|
                0 <= v < w + 1 && 0 <= k < 4 implies #[trigger] out@[4 * v + k] == word_byte(
                words[v],
                k,
            ) by {
                if v == w {
                    assert(k == 0 || k == 1 || k == 2 || k == 3);
                }
            }
        }
        w = w + 1;
    }
    assert forall|j: int| 0 <= j < 64 implies out@[j] == block_bytes(key@, nonce@, counter)[j] by {
        let v = j / 4;
        let k = j % 4;
        assert(j == 4 * v + k);
        assert(out@[4 * v + k] == word_byte(words[v], k));
    }
    assert(out@ =~= block_bytes(key@, nonce@, counter));
    out
}

/// The GT7 key bytes.
pub fn gt7_key_bytes() -> (k: [u8; 32])
    ensures
        k@ == gt7_key(),
{
    let k: [u8; 32] = [
        83, 105, 109, 117, 108, 97, 116, 111, 114, 32, 73, 110, 116, 101, 114, 102,
        97, 99, 101, 32, 80, 97, 99, 107, 101, 116, 32, 71, 84, 55, 32, 118,
    ];
    assert(k@ =~= gt7_key());
    k
}


/// XORs the buffer in place with the Salsa20 keystream selected by its own
/// nonce seed at `[0x40..0x44]` and `xor_key`.
pub fn salsa20_decrypt(buf: &mut [u8], xor_key: u32)
    requires
        old(buf)@.len() >= OFF_IV + 4,
    ensures
        final(buf)@ == gt7_crypt(old(buf)@, xor_key),
{
    let iv1 = read_u32_le(buf, OFF_IV);
    let iv2 = iv1 ^ xor_key;
    let mut nonce = [0u8; 8];
    nonce[0] = (iv2 % 256) as u8;
    nonce[1] = ((iv2 / 256) % 256) as u8;
    nonce[2] = ((iv2 / 65536) % 256) as u8;
    nonce[3] = ((iv2 / 16777216) % 256) as u8;
    nonce[4] = (iv1 % 256) as u8;
    nonce[5] = ((iv1 / 256) % 256) as u8;
    nonce[6] = ((iv1 / 65536) % 256) as u8;
    nonce[7] = ((iv1 / 16777216) % 256) as u8;
    let ghost n = gt7_nonce(old(buf)@, xor_key);
    assert(nonce@ =~= n);
    let key = gt7_key_bytes();
    let ghost orig = old(buf)@;
    let pkt_len = buf.len();
    let mut start: usize = 0;
    let mut block_idx: u64 = 0;
    while start < pkt_len
        invariant
            buf@.len() == pkt_len,
            orig.len() == pkt_len,
            orig == old(buf)@,
            key@ == gt7_key(),
            nonce@ == n,
            start <= pkt_len,
            start < pkt_len ==> start as int == block_idx as int * 64,
            block_idx as int * 64 <= start,
            forall|i: int|
                0 <= i < start ==> buf@[i] == orig[i] ^ keystream_byte(gt7_key(), n, i),
            forall|i: int| start <= i < pkt_len ==> buf@[i] == orig[i],
        decreases pkt_len - start,
    {
        let ks = salsa20_block(&key, &nonce, block_idx);
        let end = if pkt_len - start < 64 {
            pkt_len
        } else {
            start + 64
        };
        let mut j = start;
        while j < end
            invariant
                start <= j <= end,
                end <= pkt_len,
                end - start <= 64,
                start as int == block_idx as int * 64,
                buf@.len() == pkt_len,
                ks@ == block_bytes(gt7_key(), n, block_idx),
                forall|i: int|
                    0 <= i < j ==> buf@[i] == orig[i] ^ keystream_byte(gt7_key(), n, i),
                forall|i: int| j <= i < pkt_len ==> buf@[i] == orig[i],
            decreases end - j,
        {
            proof {
                let p = j as int;
                assert(p / 64 == block_idx as int);
                assert(p % 64 == p - start as int);
            }
            buf[j] = buf[j] ^ ks[j - start];
            j = j + 1;
        }
        start = end;
        if start < pkt_len {
            block_idx = block_idx + 1;
        }
    }
    assert(buf@ =~= gt7_crypt(orig, xor_key));
}


/// Decrypting a packet, putting the four nonce-seed bytes it was received with back and
/// decrypting again gives back every byte outside the nonce seed.
pub proof fn lemma_crypt_roundtrip_with_restored_iv(raw: Seq<u8>, xor_key: u32)
    requires
        raw.len() >= OFF_IV + 4,
    ensures
        gt7_crypt(restore_iv(gt7_crypt(raw, xor_key), raw), xor_key).len() == raw.len(),
        forall|i: int|
            0 <= i < raw.len() && !(OFF_IV as int <= i < OFF_IV as int + 4) ==> gt7_crypt(
                restore_iv(gt7_crypt(raw, xor_key), raw),
                xor_key,
            )[i] == raw[i],
{
    let c = gt7_crypt(raw, xor_key);
    let r = restore_iv(c, raw);
    let o = OFF_IV as int;
    assert(r[o] == raw[o] && r[o + 1] == raw[o + 1] && r[o + 2] == raw[o + 2] && r[o + 3] == raw[o
        + 3]);
    assert(gt7_nonce(r, xor_key) == gt7_nonce(raw, xor_key));
    assert forall|i: int|
        0 <= i < raw.len() && !(o <= i < o + 4) implies gt7_crypt(r, xor_key)[i] == raw[i] by {
        let k = keystream_byte(gt7_key(), gt7_nonce(raw, xor_key), i);
        let x = raw[i];
        assert((x ^ k) ^ k == x) by (bit_vector);
    }
}

/// GT7 packet type, determining heartbeat byte, XOR key, and packet size.
#[derive(Debug, Clone, Copy, PartialEq, Eq, Structural)]
pub enum Gt7PacketType {
    /// Standard 296-byte packet. Heartbeat `"A"`, XOR `0xDEADBEAF`.
    Type1,
    /// Extended 316-byte packet. Heartbeat `"B"`, XOR `0xDEADBEEF`.
    Type2,
    /// Full 344-byte packet. Heartbeat `"~"`, XOR `0x55FABB4F`.
    Type3,
}

impl Gt7PacketType {
    pub open spec fn size_of(self) -> usize {
        match self {
            Gt7PacketType::Type1 => PACKET_SIZE,
            Gt7PacketType::Type2 => PACKET_SIZE_TYPE2,
            Gt7PacketType::Type3 => PACKET_SIZE_TYPE3,
        }
    }

    pub open spec fn key_of(self) -> u32 {
        match self {
            Gt7PacketType::Type1 => XOR_KEY_TYPE1,
            Gt7PacketType::Type2 => XOR_KEY_TYPE2,
            Gt7PacketType::Type3 => XOR_KEY_TYPE3,
        }
    }

    pub open spec fn heartbeat_byte(self) -> u8 {
        match self {
            Gt7PacketType::Type1 => 65u8,
            Gt7PacketType::Type2 => 66u8,
            Gt7PacketType::Type3 => 126u8,
        }
    }

    /// Heartbeat payload to send to the console to request this packet type.
    pub fn heartbeat(self) -> (r: &'static [u8])
        ensures
            r@ == seq![self.heartbeat_byte()],
    {
        broadcast use vstd::string::is_ascii_spec_bytes;

        match self {
            Gt7PacketType::Type1 => {
                proof {
                    reveal_strlit("A");
                }
                assert(is_ascii("A"));
                let r = "A".as_bytes();
                assert(r@ =~= seq![65u8]);
                r
            },
            Gt7PacketType::Type2 => {
                proof {
                    reveal_strlit("B");
                }
                assert(is_ascii("B"));
                let r = "B".as_bytes();
                assert(r@ =~= seq![66u8]);
                r
            },
            Gt7PacketType::Type3 => {
                proof {
                    reveal_strlit("~");
                }
                assert(is_ascii("~"));
                let r = "~".as_bytes();
                assert(r@ =~= seq![126u8]);
                r
            },
        }
    }
}

impl Gt7PacketType {
    /// Expected packet size in bytes.
    pub fn expected_size(self) -> (r: usize)
        ensures
            r == self.size_of(),
    {
        match self {
            Gt7PacketType::Type1 => PACKET_SIZE,
            Gt7PacketType::Type2 => PACKET_SIZE_TYPE2,
            Gt7PacketType::Type3 => PACKET_SIZE_TYPE3,
        }
    }

    /// XOR key used in Salsa20 nonce derivation.
    pub fn xor_key(self) -> (r: u32)
        ensures
            r == self.key_of(),
    {
        match self {
            Gt7PacketType::Type1 => XOR_KEY_TYPE1,
            Gt7PacketType::Type2 => XOR_KEY_TYPE2,
            Gt7PacketType::Type3 => XOR_KEY_TYPE3,
        }
    }
}

/// The packet type whose size is exactly `len`.
pub open spec fn packet_type_of_len(len: int) -> Option<Gt7PacketType> {
    if len == PACKET_SIZE_TYPE3 {
        Some(Gt7PacketType::Type3)
    } else if len == PACKET_SIZE_TYPE2 {
        Some(Gt7PacketType::Type2)
    } else if len == PACKET_SIZE {
        Some(Gt7PacketType::Type1)
    } else {
        None
    }
}

/// Detect the packet type from the received packet length.
pub fn detect_packet_type(len: usize) -> (r: Option<Gt7PacketType>)
    ensures
        r == packet_type_of_len(len as int),
{
    if len == PACKET_SIZE_TYPE3 {
        Some(Gt7PacketType::Type3)
    } else if len == PACKET_SIZE_TYPE2 {
        Some(Gt7PacketType::Type2)
    } else if len == PACKET_SIZE {
        Some(Gt7PacketType::Type1)
    } else {
        None
    }
}

// ── Field extraction ─────────────────────────────────────────────────────────

pub const OFF_ENGINE_RPM: usize = 0x3C;
pub const OFF_FUEL_LEVEL: usize = 0x44;
pub const OFF_FUEL_CAPACITY: usize = 0x48;
pub const OFF_SPEED_MS: usize = 0x4C;
pub const OFF_WATER_TEMP: usize = 0x58;
pub const OFF_TIRE_TEMP_FL: usize = 0x60;
pub const OFF_TIRE_TEMP_FR: usize = 0x64;
pub const OFF_TIRE_TEMP_RL: usize = 0x68;
pub const OFF_TIRE_TEMP_RR: usize = 0x6C;
pub const OFF_LAP_COUNT: usize = 0x74;
pub const OFF_BEST_LAP_MS: usize = 0x78;
pub const OFF_LAST_LAP_MS: usize = 0x7C;
pub const OFF_MAX_ALERT_RPM: usize = 0x8A;
pub const OFF_FLAGS: usize = 0x8E;
pub const OFF_GEAR_BYTE: usize = 0x90;
pub const OFF_THROTTLE: usize = 0x91;
pub const OFF_BRAKE: usize = 0x92;
pub const OFF_CAR_CODE: usize = 0x124;
pub const OFF_WHEEL_ROTATION: usize = 0x128;
pub const OFF_SWAY: usize = 0x130;
pub const OFF_HEAVE: usize = 0x134;
pub const OFF_SURGE: usize = 0x138;
pub const OFF_CAR_TYPE_BYTE3: usize = 0x13E;
pub const OFF_ENERGY_RECOVERY: usize = 0x150;

pub const FLAG_PAUSED: u16 = 0x2;
pub const FLAG_REV_LIMIT: u16 = 0x20;
pub const FLAG_ASM_ACTIVE: u16 = 0x400;
pub const FLAG_TCS_ACTIVE: u16 = 0x800;

/// Motion fields present in packets of at least 316 bytes. Single-precision
/// values are raw bit patterns with non-finite values replaced by `+0.0`.
#[derive(Debug, Clone, Copy, PartialEq, Eq, Structural)]
pub struct Gt7Motion {
    pub wheel_rotation_bits: u32,
    pub sway_bits: u32,
    pub heave_bits: u32,
    pub surge_bits: u32,
}

/// Fields present in packets of at least 344 bytes.
#[derive(Debug, Clone, Copy, PartialEq, Eq, Structural)]
pub struct Gt7Energy {
    /// Car-type indicator (4 = electric).
    pub car_type: u8,
    pub energy_recovery_bits: u32,
}

/// The fields of a decrypted GT7 packet. Single-precision values are raw bit
/// patterns with non-finite values replaced by `+0.0`.
#[derive(Debug, Clone, Copy, PartialEq, Eq, Structural)]
pub struct Gt7Fields {
    pub rpm_bits: u32,
    /// Rev-limiter alert ceiling, the normalized maximum RPM.
    pub max_alert_rpm: u16,
    pub speed_bits: u32,
    pub fuel_level_bits: u32,
    pub fuel_capacity_bits: u32,
    pub water_temp_bits: u32,
    pub flags_raw: u16,
    pub lap_count: u16,
    pub best_lap_ms: i32,
    pub last_lap_ms: i32,
    /// Throttle position, 0–255.
    pub throttle_raw: u8,
    /// Brake position, 0–255.
    pub brake_raw: u8,
    /// Current gear: the low nibble of the gear byte, 0 (neutral) outside 1–8.
    pub gear: i8,
    pub tire_temp_fl_bits: u32,
    pub tire_temp_fr_bits: u32,
    pub tire_temp_rl_bits: u32,
    pub tire_temp_rr_bits: u32,
    pub car_code: i32,
    pub traction_control: bool,
    pub asm_active: bool,
    pub rev_limit: bool,
    pub paused: bool,
    pub motion: Option<Gt7Motion>,
    pub energy: Option<Gt7Energy>,
}

/// The current gear encoded in a gear byte: its low nibble when in 1–8, else 0.
pub open spec fn gear_of_byte(b: u8) -> i8 {
    let g = b % 16;
    if 1 <= g && g <= 8 {
        g as i8
    } else {
        0i8
    }
}

pub open spec fn float_at(b: Seq<u8>, off: usize) -> u32 {
    finite_or_zero(le_u32(b, off as int) as u32)
}

/// The fields that a decrypted packet of at least 296 bytes carries.
pub open spec fn fields_of(b: Seq<u8>) -> Gt7Fields {
    let flags = le_u16(b, OFF_FLAGS as int) as u16;
    Gt7Fields {
        rpm_bits: float_at(b, OFF_ENGINE_RPM),
        max_alert_rpm: le_u16(b, OFF_MAX_ALERT_RPM as int) as u16,
        speed_bits: float_at(b, OFF_SPEED_MS),
        fuel_level_bits: float_at(b, OFF_FUEL_LEVEL),
        fuel_capacity_bits: float_at(b, OFF_FUEL_CAPACITY),
        water_temp_bits: float_at(b, OFF_WATER_TEMP),
        flags_raw: flags,
        lap_count: le_u16(b, OFF_LAP_COUNT as int) as u16,
        best_lap_ms: le_i32(b, OFF_BEST_LAP_MS as int) as i32,
        last_lap_ms: le_i32(b, OFF_LAST_LAP_MS as int) as i32,
        throttle_raw: b[OFF_THROTTLE as int],
        brake_raw: b[OFF_BRAKE as int],
        gear: gear_of_byte(b[OFF_GEAR_BYTE as int]),
        tire_temp_fl_bits: float_at(b, OFF_TIRE_TEMP_FL),
        tire_temp_fr_bits: float_at(b, OFF_TIRE_TEMP_FR),
        tire_temp_rl_bits: float_at(b, OFF_TIRE_TEMP_RL),
        tire_temp_rr_bits: float_at(b, OFF_TIRE_TEMP_RR),
        car_code: le_i32(b, OFF_CAR_CODE as int) as i32,
        traction_control: flags & FLAG_TCS_ACTIVE != 0,
        asm_active: flags & FLAG_ASM_ACTIVE != 0,
        rev_limit: flags & FLAG_REV_LIMIT != 0,
        paused: flags & FLAG_PAUSED != 0,
        motion: if b.len() >= PACKET_SIZE_TYPE2 {
            Some(
                Gt7Motion {
                    wheel_rotation_bits: float_at(b, OFF_WHEEL_ROTATION),
                    sway_bits: float_at(b, OFF_SWAY),
                    heave_bits: float_at(b, OFF_HEAVE),
                    surge_bits: float_at(b, OFF_SURGE),
                },
            )
        } else {
            None
        },
        energy: if b.len() >= PACKET_SIZE_TYPE3 {
            Some(
                Gt7Energy {
                    car_type: b[OFF_CAR_TYPE_BYTE3 as int],
                    energy_recovery_bits: float_at(b, OFF_ENERGY_RECOVERY),
                },
            )
        } else {
            None
        },
    }
}

fn gear_from_byte(b: u8) -> (r: i8)
    ensures
        r == gear_of_byte(b),
{
    let g = b & 0x0F;
    assert(g == b % 16) by (bit_vector)
        requires
            g == b & 0x0F,
    ;
    if g >= 1 && g <= 8 {
        g as i8
    } else {
        0
    }
}

/// Parse fields from an already-decrypted GT7 packet of any supported size.
pub fn parse_decrypted_ext(buf: &[u8]) -> (r: Result<Gt7Fields, TelemetryError>)
    ensures
        buf@.len() < PACKET_SIZE ==> r == Err::<Gt7Fields, TelemetryError>(
            TelemetryError::TooShort { needed: PACKET_SIZE, actual: buf@.len() as usize },
        ),
        buf@.len() >= PACKET_SIZE ==> r == Ok::<Gt7Fields, TelemetryError>(fields_of(buf@)),
{
    if buf.len() < PACKET_SIZE {
        return Err(TelemetryError::TooShort { needed: PACKET_SIZE, actual: buf.len() });
    }
    let flags = read_u16_le(buf, OFF_FLAGS);
    let motion = if buf.len() >= PACKET_SIZE_TYPE2 {
        Some(
            Gt7Motion {
                wheel_rotation_bits: read_float_bits_finite(buf, OFF_WHEEL_ROTATION),
                sway_bits: read_float_bits_finite(buf, OFF_SWAY),
                heave_bits: read_float_bits_finite(buf, OFF_HEAVE),
                surge_bits: read_float_bits_finite(buf, OFF_SURGE),
            },
        )
    } else {
        None
    };
    let energy = if buf.len() >= PACKET_SIZE_TYPE3 {
        Some(
            Gt7Energy {
                car_type: buf[OFF_CAR_TYPE_BYTE3],
                energy_recovery_bits: read_float_bits_finite(buf, OFF_ENERGY_RECOVERY),
            },
        )
    } else {
        None
    };
    let f = Gt7Fields {
        rpm_bits: read_float_bits_finite(buf, OFF_ENGINE_RPM),
        max_alert_rpm: read_u16_le(buf, OFF_MAX_ALERT_RPM),
        speed_bits: read_float_bits_finite(buf, OFF_SPEED_MS),
        fuel_level_bits: read_float_bits_finite(buf, OFF_FUEL_LEVEL),
        fuel_capacity_bits: read_float_bits_finite(buf, OFF_FUEL_CAPACITY),
        water_temp_bits: read_float_bits_finite(buf, OFF_WATER_TEMP),
        flags_raw: flags,
        lap_count: read_u16_le(buf, OFF_LAP_COUNT),
        best_lap_ms: read_i32_le(buf, OFF_BEST_LAP_MS),
        last_lap_ms: read_i32_le(buf, OFF_LAST_LAP_MS),
        throttle_raw: buf[OFF_THROTTLE],
        brake_raw: buf[OFF_BRAKE],
        gear: gear_from_byte(buf[OFF_GEAR_BYTE]),
        tire_temp_fl_bits: read_float_bits_finite(buf, OFF_TIRE_TEMP_FL),
        tire_temp_fr_bits: read_float_bits_finite(buf, OFF_TIRE_TEMP_FR),
        tire_temp_rl_bits: read_float_bits_finite(buf, OFF_TIRE_TEMP_RL),
        tire_temp_rr_bits: read_float_bits_finite(buf, OFF_TIRE_TEMP_RR),
        car_code: read_i32_le(buf, OFF_CAR_CODE),
        traction_control: flags & FLAG_TCS_ACTIVE != 0,
        asm_active: flags & FLAG_ASM_ACTIVE != 0,
        rev_limit: flags & FLAG_REV_LIMIT != 0,
        paused: flags & FLAG_PAUSED != 0,
        motion,
        energy,
    };
    Ok(f)
}

/// Parse fields from an already-decrypted, standard-size GT7 packet.
pub fn parse_decrypted(buf: &[u8; 296]) -> (r: Result<Gt7Fields, TelemetryError>)
    ensures
        r == Ok::<Gt7Fields, TelemetryError>(fields_of(buf@)),
{
    parse_decrypted_ext(buf.as_slice())
}

/// The packet type used for a received length: the exact match, or type 1.
pub open spec fn effective_type(len: int) -> Gt7PacketType {
    match packet_type_of_len(len) {
        Some(t) => t,
        None => Gt7PacketType::Type1,
    }
}

/// The decrypted bytes of a received packet of at least 296 bytes.
pub open spec fn decrypted_packet(data: Seq<u8>) -> Seq<u8> {
    let t = effective_type(data.len() as int);
    let n = if (t.size_of() as int) < data.len() { t.size_of() as int } else { data.len() as int };
    gt7_crypt(data.subrange(0, n), t.key_of())
}

/// Decrypt a raw packet of any recognised size and check its magic word.
pub fn decrypt_packet(data: &[u8]) -> (r: Result<Vec<u8>, TelemetryError>)
    ensures
        data@.len() < PACKET_SIZE ==> r == Err::<Vec<u8>, TelemetryError>(
            TelemetryError::TooShort { needed: PACKET_SIZE, actual: data@.len() as usize },
        ),
        data@.len() >= PACKET_SIZE && le_u32(decrypted_packet(data@), 0) != MAGIC ==> r == Err::<
            Vec<u8>,
            TelemetryError,
        >(TelemetryError::BadMagic),
        data@.len() >= PACKET_SIZE && le_u32(decrypted_packet(data@), 0) == MAGIC ==> (r matches Ok(
            v,
        ) && v@ == decrypted_packet(data@)),
{
    if data.len() < PACKET_SIZE {
        return Err(TelemetryError::TooShort { needed: PACKET_SIZE, actual: data.len() });
    }
    let pkt_type = match detect_packet_type(data.len()) {
        Some(t) => t,
        None => Gt7PacketType::Type1,
    };
    let expected = pkt_type.expected_size();
    let pkt_len = if expected < data.len() {
        expected
    } else {
        data.len()
    };
    let mut buf = vstd::slice::slice_to_vec(&data[0..pkt_len]);
    salsa20_decrypt(buf.as_mut_slice(), pkt_type.xor_key());
    let magic = read_u32_le(buf.as_slice(), OFF_MAGIC);
    if magic != MAGIC {
        return Err(TelemetryError::BadMagic);
    }
    Ok(buf)
}

/// Decrypt a raw GT7 packet and extract its fields.
pub fn decrypt_and_parse(data: &[u8]) -> (r: Result<Gt7Fields, TelemetryError>)
    ensures
        data@.len() < PACKET_SIZE ==> r == Err::<Gt7Fields, TelemetryError>(
            TelemetryError::TooShort { needed: PACKET_SIZE, actual: data@.len() as usize },
        ),
        data@.len() >= PACKET_SIZE && le_u32(decrypted_packet(data@), 0) != MAGIC ==> r == Err::<
            Gt7Fields,
            TelemetryError,
        >(TelemetryError::BadMagic),
        data@.len() >= PACKET_SIZE && le_u32(decrypted_packet(data@), 0) == MAGIC ==> r == Ok::<
            Gt7Fields,
            TelemetryError,
        >(fields_of(decrypted_packet(data@))),
{
    let buf = decrypt_packet(data)?;
    parse_decrypted_ext(buf.as_slice())
}


// ── Adapter ──────────────────────────────────────────────────────────────────

/// Interval between heartbeats that keep the console's stream alive.
pub const HEARTBEAT_INTERVAL_MS: u64 = 100;
pub const DEFAULT_UPDATE_RATE_MS: u64 = 17;

/// Whether a heartbeat is due at `now_ns` when the last one went out at
/// `last_heartbeat_ns`: at least 100 ms have passed.
pub open spec fn heartbeat_due_spec(last_heartbeat_ns: u64, now_ns: u64) -> bool {
    now_ns >= last_heartbeat_ns && now_ns - last_heartbeat_ns >= HEARTBEAT_INTERVAL_MS * 1_000_000
}

pub fn heartbeat_due(last_heartbeat_ns: u64, now_ns: u64) -> (r: bool)
    ensures
        r == heartbeat_due_spec(last_heartbeat_ns, now_ns),
{
    now_ns >= last_heartbeat_ns && now_ns - last_heartbeat_ns >= HEARTBEAT_INTERVAL_MS * 1_000_000
}

/// Gran Turismo 7 adapter configuration: the packets are received on
/// `recv_port`, heartbeats of the packet type go to the console on
/// [`GT7_SEND_PORT`].
#[derive(Debug, Clone, Copy, PartialEq, Eq, Structural)]
pub struct GranTurismo7Adapter {
    pub recv_port: u16,
    pub update_rate_ms: u64,
    pub packet_type: Gt7PacketType,
}

impl GranTurismo7Adapter {
    /// Defaults: port 33740, the full (type 3) packet.
    pub fn new() -> (r: Self)
        ensures
            r.recv_port == GT7_RECV_PORT,
            r.update_rate_ms == DEFAULT_UPDATE_RATE_MS,
            r.packet_type == Gt7PacketType::Type3,
    {
        GranTurismo7Adapter { recv_port: GT7_RECV_PORT, update_rate_ms: DEFAULT_UPDATE_RATE_MS, packet_type: Gt7PacketType::Type3 }
    }

    /// Override the receive port.
    pub fn with_port(self, port: u16) -> (r: Self)
        ensures
            r == (GranTurismo7Adapter { recv_port: port, ..self }),
    {
        GranTurismo7Adapter { recv_port: port, ..self }
    }

    /// Override the packet type (heartbeat byte and expected size).
    pub fn with_packet_type(self, packet_type: Gt7PacketType) -> (r: Self)
        ensures
            r == (GranTurismo7Adapter { packet_type, ..self }),
    {
        GranTurismo7Adapter { packet_type, ..self }
    }

    pub fn game_id(&self) -> (r: &'static str)
        ensures
            r@ == "gran_turismo_7"@,
    {
        "gran_turismo_7"
    }

    pub fn expected_update_rate_ms(&self) -> (r: u64)
        ensures
            r == self.update_rate_ms,
    {
        self.update_rate_ms
    }

    /// The heartbeat that requests this adapter's packet type.
    pub fn heartbeat_payload(&self) -> (r: &'static [u8])
        ensures
            r@ == seq![self.packet_type.heartbeat_byte()],
    {
        self.packet_type.heartbeat()
    }

    /// The game runs on a console; it is never detected locally.
    pub fn is_game_running(&self) -> (r: bool)
        ensures
            !r,
    {
        false
    }

    pub fn normalize(&self, raw: &[u8]) -> (r: Result<Gt7Fields, TelemetryError>)
        ensures
            raw@.len() < PACKET_SIZE ==> r == Err::<Gt7Fields, TelemetryError>(
                TelemetryError::TooShort { needed: PACKET_SIZE, actual: raw@.len() as usize },
            ),
            raw@.len() >= PACKET_SIZE && le_u32(decrypted_packet(raw@), 0) != MAGIC ==> r == Err::<
                Gt7Fields,
                TelemetryError,
            >(TelemetryError::BadMagic),
            raw@.len() >= PACKET_SIZE && le_u32(decrypted_packet(raw@), 0) == MAGIC ==> r == Ok::<
                Gt7Fields,
                TelemetryError,
            >(fields_of(decrypted_packet(raw@))),
    {
        decrypt_and_parse(raw)
    }
}

impl Default for GranTurismo7Adapter {
    fn default() -> (r: Self)
        ensures
            r.recv_port == GT7_RECV_PORT,
            r.update_rate_ms == DEFAULT_UPDATE_RATE_MS,
            r.packet_type == Gt7PacketType::Type3,
    {
        GranTurismo7Adapter::new()
    }
}

} // verus!
