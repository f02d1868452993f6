//! Drawing UUIDs of a chosen version and rendering a run of them as lines.

use vstd::arithmetic::power2::pow2;
use vstd::prelude::*;

use crate::encode::{encoded, format_uuid, lemma_encoded_len};
use crate::options::{Args, Format, Version};

verus! {

#[verifier::external_type_specification]
#[verifier::external_body]
pub struct ExRandomError(getrandom::Error);

#[verifier::external_type_specification]
#[verifier::external_body]
pub struct ExSystemTimeError(std::time::SystemTimeError);

#[verifier::external_type_specification]
#[verifier::external_body]
pub struct ExContextV1(uuid::ContextV1);

#[verifier::external_type_specification]
#[verifier::external_body]
pub struct ExTimestamp(uuid::Timestamp);

/// Why a run could not produce its UUIDs.
#[derive(Debug, Clone, Copy, PartialEq, Eq, Structural)]
pub enum GenerateError {
    /// The system's source of randomness failed.
    RandomUnavailable,
    /// The system clock reads a time before 1970.
    ClockBeforeEpoch,
}

/// Byte `i` of a UUID, for `0 <= i < 16`, counted from the most significant.
pub open spec fn byte_of(u: u128, i: int) -> int {
    (u as int / pow2((8 * (15 - i)) as nat) as int) % 256
}

/// The four version bits of a UUID (bits 76 to 79 of its value).
pub open spec fn version_field(u: u128) -> int {
    (u as int / pow2(76) as int) % 16
}

/// The two variant bits of a UUID (bits 62 and 63 of its value).
pub open spec fn variant_field(u: u128) -> int {
    (u as int / pow2(62) as int) % 4
}

/// The six bytes of the node field (the low 48 bits), most significant first.
pub open spec fn node_field(u: u128) -> Seq<u8> {
    Seq::new(6, |i: int| byte_of(u, i + 10) as u8)
}

/// The number that the version field holds for `v`.
pub open spec fn version_number(v: Version) -> int {
    match v {
        Version::V1 => 1,
        Version::V4 => 4,
        Version::V7 => 7,
    }
}

/// The bytes of `x`, least significant first.
pub open spec fn le_bytes(x: u32) -> Seq<u8> {
    seq![(x % 256) as u8, ((x / 256) % 256) as u8, ((x / 65536) % 256) as u8, (x / 16777216) as u8]
}

/// The bytes of `x`, most significant first.
pub open spec fn be_bytes(x: u32) -> Seq<u8> {
    seq![(x / 16777216) as u8, ((x / 65536) % 256) as u8, ((x / 256) % 256) as u8, (x % 256) as u8]
}

/// `b` holds the bytes of `pid` in one of the two byte orders.
pub open spec fn pid_bytes_of(b: Seq<u8>, pid: u32) -> bool {
    b == le_bytes(pid) || b == be_bytes(pid)
}

/// `u` carries the version field of `v` and the RFC 4122 variant (`10`).
pub open spec fn is_rfc_uuid(u: u128, v: Version) -> bool {
    &&& version_field(u) == version_number(v)
    &&& variant_field(u) == 2
}

/// `u` is a UUID that a handler for version `v` may produce when it places
/// `pid_bytes` in the node field of version 1 UUIDs.
pub open spec fn generated_by(u: u128, v: Version, pid_bytes: Seq<u8>) -> bool {
    &&& is_rfc_uuid(u, v)
    &&& v == Version::V1 ==> node_field(u).subrange(2, 6) == pid_bytes
}

/// Milliseconds since the Unix epoch of a clock reading, capped at
/// `u64::MAX`.
pub open spec fn millis_of(secs: u64, nanos: u32) -> int {
    let m = secs * 1000 + nanos / 1_000_000;
    if m > u64::MAX {
        u64::MAX as int
    } else {
        m
    }
}

/// Relies on `getrandom::getrandom`: it fills the buffer in place, which keeps
/// its length.
#[verifier::external_body]
fn fill_random(buf: &mut Vec<u8>) -> (r: Result<(), getrandom::Error>)
    ensures
        final(buf)@.len() == old(buf)@.len(),
{
    getrandom::getrandom(buf.as_mut_slice())
}

/// Relies on `SystemTime::elapsed` on `UNIX_EPOCH`: the time since 1970 as
/// whole seconds and the nanoseconds below a second, or an error when the
/// clock reads an earlier time.
#[verifier::external_body]
fn unix_now() -> (r: Result<(u64, u32), std::time::SystemTimeError>)
    ensures
        r matches Ok((s, n)) ==> n < 1_000_000_000,
{
    let d = std::time::UNIX_EPOCH.elapsed()?;
    Ok((d.as_secs(), d.subsec_nanos()))
}

/// Relies on `u32::to_ne_bytes`: the bytes of `x` in the machine's byte order.
#[verifier::external_body]
fn native_bytes(x: u32) -> (r: [u8; 4])
    ensures
        pid_bytes_of(r@, x),
{
    x.to_ne_bytes()
}

/// Relies on `uuid::Builder::from_random_bytes`: the bytes as given, but for
/// the version field 4 and the RFC 4122 variant.
#[verifier::external_body]
fn v4_from(b: [u8; 16]) -> (r: u128)
    ensures
        is_rfc_uuid(r, Version::V4),
        forall|i: int| 0 <= i < 16 && i != 6 && i != 8 ==> #[trigger] byte_of(r, i) == b@[i] as int,
        byte_of(r, 6) % 16 == b@[6] % 16,
        byte_of(r, 8) % 64 == b@[8] % 64,
{
    uuid::Builder::from_random_bytes(b).into_uuid().as_u128()
}

/// Relies on `uuid::Builder::from_unix_timestamp_millis`: the low 48 bits of
/// `millis` on top, the version field 7, the RFC 4122 variant, and the bytes
/// of `b` in the remaining bits.
#[verifier::external_body]
fn v7_from(millis: u64, b: [u8; 10]) -> (r: u128)
    ensures
        is_rfc_uuid(r, Version::V7),
        r as int / pow2(80) as int == millis as int % pow2(48) as int,
        byte_of(r, 6) % 16 == b@[0] % 16,
        byte_of(r, 7) == b@[1] as int,
        byte_of(r, 8) % 64 == b@[2] % 64,
        forall|i: int| 9 <= i < 16 ==> #[trigger] byte_of(r, i) == b@[i - 6] as int,
{
    uuid::Builder::from_unix_timestamp_millis(millis, &b).into_uuid().as_u128()
}

/// Relies on `uuid::ContextV1::new`: a clock sequence counter that starts at
/// `seed`.
#[verifier::external_body]
fn new_context(seed: u16) -> (r: uuid::ContextV1) {
    uuid::ContextV1::new(seed)
}

/// Relies on `uuid::Timestamp::from_unix`: the reading paired with the next
/// value of the context's counter.
#[verifier::external_body]
fn timestamp_at(context: &uuid::ContextV1, secs: u64, nanos: u32) -> (r: uuid::Timestamp) {
    uuid::Timestamp::from_unix(context, secs, nanos)
}

/// Relies on `uuid::Uuid::new_v1`: the timestamp and clock sequence under
/// the version field 1 and the RFC 4122 variant, with `node` as the node
/// field.
#[verifier::external_body]
fn v1_from(ts: uuid::Timestamp, node: &[u8; 6]) -> (r: u128)
    ensures
        is_rfc_uuid(r, Version::V1),
        node_field(r) == node@,
{
    uuid::Uuid::new_v1(ts, node).as_u128()
}

/// A node id: the two bytes of `random`, then the four of `pid_bytes`.
pub fn node_from(random: [u8; 2], pid_bytes: [u8; 4]) -> (r: [u8; 6])
    ensures
        r@ == random@ + pid_bytes@,
{
    let r: [u8; 6] = [random[0], random[1], pid_bytes[0], pid_bytes[1], pid_bytes[2], pid_bytes[3]];
    assert(r@ =~= random@ + pid_bytes@);
    r
}

/// A node id for version 1 UUIDs: two random bytes, then `pid_bytes`.
pub fn node_id(pid_bytes: [u8; 4]) -> (r: Result<[u8; 6], GenerateError>)
    ensures
        r matches Ok(n) ==> n@.subrange(2, 6) == pid_bytes@,
        r matches Err(e) ==> e == GenerateError::RandomUnavailable,
{
    let mut random: Vec<u8> = vec![0u8, 0u8];
    match fill_random(&mut random) {
        Ok(()) => {},
        Err(_) => {
            return Err(GenerateError::RandomUnavailable);
        },
    }
    let n = node_from([random[0], random[1]], pid_bytes);
    assert(n@.subrange(2, 6) =~= pid_bytes@);
    Ok(n)
}

/// Milliseconds since the Unix epoch of a clock reading, saturating at
/// `u64::MAX`.
pub fn unix_millis(secs: u64, nanos: u32) -> (r: u64)
    ensures
        r == millis_of(secs, nanos),
{
    let sub: u64 = (nanos / 1_000_000) as u64;
    if secs > u64::MAX / 1000 {
        u64::MAX
    } else {
        let whole: u64 = secs * 1000;
        if whole > u64::MAX - sub {
            u64::MAX
        } else {
            whole + sub
        }
    }
}

fn read_clock() -> (r: Result<(u64, u32), GenerateError>)
    ensures
        r matches Ok((s, n)) ==> n < 1_000_000_000,
        r matches Err(e) ==> e == GenerateError::ClockBeforeEpoch,
{
    match unix_now() {
        Ok(t) => Ok(t),
        Err(_) => Err(GenerateError::ClockBeforeEpoch),
    }
}

/// Draws UUIDs of one version, one at a time.
#[derive(Debug)]
pub struct Handler {
    pub version: Version,
    /// The bytes of the process id in the machine's byte order, which
    /// version 1 UUIDs carry at the end of their node field.
    pub pid_bytes: [u8; 4],
    /// The clock sequence of version 1 UUIDs.
    pub context: uuid::ContextV1,
}

impl Handler {
    /// A handler for `version` in the process `pid`. For version 1 the clock
    /// sequence starts at a random value.
    pub fn new(version: Version, pid: u32) -> (r: Result<Handler, GenerateError>)
        ensures
            r matches Ok(h) ==> h.version == version && pid_bytes_of(h.pid_bytes@, pid),
            r matches Err(e) ==> version == Version::V1 && e == GenerateError::RandomUnavailable,
    {
        let pid_bytes = native_bytes(pid);
        match version {
            Version::V1 => {
                let mut seed: Vec<u8> = vec![0u8, 0u8];
                match fill_random(&mut seed) {
                    Ok(()) => {
                        let s: u16 = (seed[0] as u16) * 256 + (seed[1] as u16);
                        Ok(Handler { version, pid_bytes, context: new_context(s) })
                    },
                    Err(_) => Err(GenerateError::RandomUnavailable),
                }
            },
            _ => Ok(Handler { version, pid_bytes, context: new_context(0) }),
        }
    }

    /// Draws the next UUID, reading the clock for versions 1 and 7 and the
    /// system's randomness for all. Version 7 UUIDs hold the time in
    /// milliseconds and random bits below it, so two drawn within one
    /// millisecond need not come out in order.
    pub fn next(&mut self) -> (r: Result<u128, GenerateError>)
        ensures
            *final(self) == *old(self),
            r matches Ok(u) ==> generated_by(u, old(self).version, old(self).pid_bytes@),
            r matches Err(e) ==> e == GenerateError::ClockBeforeEpoch ==> old(self).version != Version::V4,
    {
        match self.version {
            Version::V1 => {
                let (secs, nanos) = match read_clock() {
                    Ok(t) => t,
                    Err(e) => {
                        return Err(e);
                    },
                };
                let node = match node_id(self.pid_bytes) {
                    Ok(n) => n,
                    Err(e) => {
                        return Err(e);
                    },
                };
                let ts = timestamp_at(&self.context, secs, nanos);
                let u = v1_from(ts, &node);
                assert(node_field(u).subrange(2, 6) == node@.subrange(2, 6));
                Ok(u)
            },
            Version::V4 => {
                let mut b: Vec<u8> = vec![0u8; 16];
                match fill_random(&mut b) {
                    Ok(()) => {},
                    Err(_) => {
                        return Err(GenerateError::RandomUnavailable);
                    },
                }
                let bytes: [u8; 16] = [
                    b[0], b[1], b[2], b[3], b[4], b[5], b[6], b[7],
                    b[8], b[9], b[10], b[11], b[12], b[13], b[14], b[15],
                ];
                Ok(v4_from(bytes))
            },
            Version::V7 => {
                let (secs, nanos) = match read_clock() {
                    Ok(t) => t,
                    Err(e) => {
                        return Err(e);
                    },
                };
                let mut b: Vec<u8> = vec![0u8; 10];
                match fill_random(&mut b) {
                    Ok(()) => {},
                    Err(_) => {
                        return Err(GenerateError::RandomUnavailable);
                    },
                }
                let bytes: [u8; 10] = [b[0], b[1], b[2], b[3], b[4], b[5], b[6], b[7], b[8], b[9]];
                Ok(v7_from(unix_millis(secs, nanos), bytes))
            },
        }
    }
}

/// Draws `amount` UUIDs from `handler`, stopping at the first failure.
pub fn generate(handler: &mut Handler, amount: usize) -> (r: Result<Vec<u128>, GenerateError>)
    ensures
        *final(handler) == *old(handler),
        r matches Ok(us) ==> us@.len() == amount && forall|i: int|
            0 <= i < us@.len() ==> generated_by(#[trigger] us@[i], old(handler).version, old(handler).pid_bytes@),
        r matches Err(e) ==> e == GenerateError::ClockBeforeEpoch ==> old(handler).version != Version::V4,
{
    let ghost h0 = *handler;
    let mut us: Vec<u128> = Vec::new();
    let mut i: usize = 0;
    while i < amount
        invariant
            i <= amount,
            us@.len() == i,
            *handler == h0,
            h0 == *old(handler),
            forall|j: int| 0 <= j < us@.len() ==> generated_by(#[trigger] us@[j], h0.version, h0.pid_bytes@),
        decreases amount - i,
    {
        match handler.next() {
            Ok(u) => us.push(u),
            Err(e) => {
                return Err(e);
            },
        }
        i = i + 1;
    }
    Ok(us)
}

/// The lines of a run: each UUID of `us` in the encoding `f`, each followed
/// by a newline.
pub open spec fn lines_text(us: Seq<u128>, f: Format) -> Seq<char>
    decreases us.len(),
{
    if us.len() == 0 {
        Seq::empty()
    } else {
        lines_text(us.drop_last(), f) + encoded(us.last(), f).push('\n')
    }
}

/// A run of `n` UUIDs takes at most `n * (f.char_length() + 1)` characters,
/// and exactly that many in the fixed-width encodings.
pub proof fn lemma_lines_len(us: Seq<u128>, f: Format)
    ensures
        lines_text(us, f).len() <= us.len() * (f.max_len() + 1),
        f != Format::Integer ==> lines_text(us, f).len() == us.len() * (f.max_len() + 1),
    decreases us.len(),
{
    if us.len() > 0 {
        lemma_lines_len(us.drop_last(), f);
        lemma_encoded_len(us.last(), f);
        assert((us.len() - 1) * (f.max_len() + 1) + (f.max_len() + 1) == us.len() * (f.max_len() + 1))
            by (nonlinear_arith);
    }
}

/// Writes each UUID of `us` in the encoding `format` on a line of its own.
pub fn render(us: &Vec<u128>, format: Format) -> (r: String)
    ensures
        r@ == lines_text(us@, format),
{
    let mut out = String::new();
    let mut i: usize = 0;
    while i < us.len()
        invariant
            i <= us@.len(),
            out@ == lines_text(us@.subrange(0, i as int), format),
        decreases us@.len() - i,
    {
        let text = format_uuid(us[i], format);
        out.append(text.as_str());
        out.append("\n");
        proof {
            let next = us@.subrange(0, i + 1);
            assert(next.drop_last() =~= us@.subrange(0, i as int));
            assert(next.last() == us@[i as int]);
            reveal_strlit("\n");
            assert("\n"@ =~= seq!['\n']);
            assert(out@ =~= lines_text(next, format));
        }
        i = i + 1;
    }
    assert(us@.subrange(0, us@.len() as int) =~= us@);
    out
}

/// Generates `args.amount` UUIDs of `args.version` in the process `pid` and
/// renders them in `args.format`, one per line.
pub fn to_string(args: Args, pid: u32) -> (r: Result<String, GenerateError>)
    ensures
        r matches Ok(s) ==> exists|us: Seq<u128>, pid_bytes: Seq<u8>|
            {
                &&& pid_bytes_of(pid_bytes, pid)
                &&& us.len() == args.amount
                &&& forall|i: int| 0 <= i < us.len() ==> generated_by(#[trigger] us[i], args.version, pid_bytes)
                &&& s@ == lines_text(us, args.format)
            },
        r matches Err(e) ==> e == GenerateError::ClockBeforeEpoch ==> args.version != Version::V4,
{
    let mut handler = match Handler::new(args.version, pid) {
        Ok(h) => h,
        Err(e) => {
            return Err(e);
        },
    };
    let us = match generate(&mut handler, args.amount) {
        Ok(us) => us,
        Err(e) => {
            return Err(e);
        },
    };
    let s = render(&us, args.format);
    assert(us@.len() == args.amount);
    assert(pid_bytes_of(handler.pid_bytes@, pid));
    Ok(s)
}

} // verus!
