//! Producing the 16 bytes of a UUID of a chosen variant from the run's inputs.
use vstd::prelude::*;

use crate::format::{DispatchError, UUIDFormat};
use crate::text::{canonical_text, is_canonical_text, lemma_canonical_text_shape, render};

verus! {

/// 100 ns ticks from the Gregorian reform (1582-10-15) to the Unix epoch.
pub const TICKS_BETWEEN_EPOCHS: u64 = 0x01B2_1DD2_1381_4000;

/// The bytes of the standard DNS namespace, 6ba7b810-9dad-11d1-80b4-00c04fd430c8.
pub open spec fn dns_namespace_bytes() -> Seq<u8> {
    seq![
        0x6bu8, 0xa7u8, 0xb8u8, 0x10u8, 0x9du8, 0xadu8, 0x11u8, 0xd1u8,
        0x80u8, 0xb4u8, 0x00u8, 0xc0u8, 0x4fu8, 0xd4u8, 0x30u8, 0xc8u8,
    ]
}

/// The UUID that the MD5 scheme derives from a namespace and a name.
pub uninterp spec fn md5_name_uuid(namespace: Seq<u8>, name: Seq<u8>) -> Seq<u8>;

/// The UUID that the SHA-1 scheme derives from a namespace and a name.
pub uninterp spec fn sha1_name_uuid(namespace: Seq<u8>, name: Seq<u8>) -> Seq<u8>;

/// The 60-bit time of a time-based UUID, in 100 ns ticks since 1582-10-15.
pub open spec fn ticks_of(seconds: u64, subsec_nanos: u32) -> int {
    TICKS_BETWEEN_EPOCHS + seconds * 10_000_000 + subsec_nanos / 100
}

/// Whether the tick count of a Unix time fits in 64 bits.
pub open spec fn ticks_fit(seconds: u64, subsec_nanos: u32) -> bool {
    ticks_of(seconds, subsec_nanos) <= u64::MAX
}

/// The layout of a time-based UUID: time low, mid and high (with version 1),
/// the 14-bit clock sequence (with the RFC 4122 variant), then the node.
pub open spec fn v1_layout(ticks: u64, clock_seq: u16, node: Seq<u8>) -> Seq<u8> {
    seq![
        (ticks >> 24u64) as u8,
        (ticks >> 16u64) as u8,
        (ticks >> 8u64) as u8,
        ticks as u8,
        (ticks >> 40u64) as u8,
        (ticks >> 32u64) as u8,
        (((ticks >> 56u64) & 0x0f) as u8) | 0x10u8,
        (ticks >> 48u64) as u8,
        (((clock_seq >> 8u16) & 0x3f) as u8) | 0x80u8,
        clock_seq as u8,
    ] + node
}

/// Whether byte 6 carries version `v` and byte 8 the RFC 4122 variant.
pub open spec fn has_version(b: Seq<u8>, v: u8) -> bool {
    b[6] / 16 == v && b[8] / 64 == 2
}

/// The version number that each format writes into its identifiers.
pub open spec fn version_of(f: UUIDFormat) -> u8 {
    match f {
        UUIDFormat::V1 => 1,
        UUIDFormat::V3 => 3,
        UUIDFormat::V4 => 4,
        UUIDFormat::V5 => 5,
    }
}

/// Relies on uuid's `Uuid::NAMESPACE_DNS`, the namespace of RFC 4122 for
/// domain names.
#[verifier::external_body]
fn dns_namespace() -> (r: [u8; 16])
    ensures
        r@ == dns_namespace_bytes(),
{
    *uuid::Uuid::NAMESPACE_DNS.as_bytes()
}

/// Relies on uuid's `Uuid::new_v3`: the MD5 digest of namespace and name, with
/// version 3 and the RFC 4122 variant set.
#[verifier::external_body]
fn name_md5(namespace: &[u8; 16], name: &Vec<u8>) -> (r: [u8; 16])
    ensures
        r@ == md5_name_uuid(namespace@, name@),
        has_version(r@, 3),
{
    *uuid::Uuid::new_v3(&uuid::Uuid::from_bytes(*namespace), name.as_slice()).as_bytes()
}

/// Relies on uuid's `Uuid::new_v5`: the first 16 bytes of the SHA-1 digest of
/// namespace and name, with version 5 and the RFC 4122 variant set.
#[verifier::external_body]
fn name_sha1(namespace: &[u8; 16], name: &Vec<u8>) -> (r: [u8; 16])
    ensures
        r@ == sha1_name_uuid(namespace@, name@),
        has_version(r@, 5),
{
    *uuid::Uuid::new_v5(&uuid::Uuid::from_bytes(*namespace), name.as_slice()).as_bytes()
}

/// Relies on uuid's `Uuid::new_v4`: random bytes from the operating system,
/// with version 4 and the RFC 4122 variant set. Nothing else is known of them.
#[verifier::external_body]
fn random_bytes() -> (r: [u8; 16])
    ensures
        has_version(r@, 4),
{
    *uuid::Uuid::new_v4().as_bytes()
}

/// Relies on uuid's `Context::new`, `Timestamp::from_unix` and `Uuid::new_v1`:
/// a fresh context hands out `clock_seq` as the counter, the tick count is
/// `ticks_of`, and with a 6-byte node `new_v1` always succeeds with the layout
/// `v1_layout`.
#[verifier::external_body]
fn time_based(clock_seq: u16, seconds: u64, subsec_nanos: u32, node: &[u8; 6]) -> (r: Option<[u8; 16]>)
    requires
        ticks_fit(seconds, subsec_nanos),
    ensures
        r is Some,
        r->Some_0@ == v1_layout(ticks_of(seconds, subsec_nanos) as u64, clock_seq, node@),
{
    let context = uuid::v1::Context::new(clock_seq);
    let ts = uuid::v1::Timestamp::from_unix(&context, seconds, subsec_nanos);
    uuid::Uuid::new_v1(ts, node).ok().map(|u| *u.as_bytes())
}

/// What the name-based and time-based variants are computed from.
#[derive(Clone, Debug, PartialEq, Eq)]
pub struct Inputs {
    /// Namespace of the name-based variants.
    pub namespace: [u8; 16],
    /// Name of the name-based variants.
    pub name: Vec<u8>,
    /// Clock sequence of the time-based variant (14 bits are kept).
    pub clock_seq: u16,
    /// Whole seconds since the Unix epoch, for the time-based variant.
    pub seconds: u64,
    /// Nanoseconds past `seconds` (kept in units of 100 ns).
    pub subsec_nanos: u32,
    /// Node identifier of the time-based variant.
    pub node: [u8; 6],
}

impl Inputs {
    /// The fixed inputs: the name `test` in the DNS namespace; clock sequence
    /// 42 at 1497624119 s and 1234 ns; node 01:02:03:04:05:06.
    pub fn standard() -> (r: Inputs)
        ensures
            r.namespace@ == dns_namespace_bytes(),
            r.name@ == seq![0x74u8, 0x65u8, 0x73u8, 0x74u8],
            r.clock_seq == 42,
            r.seconds == 1497624119,
            r.subsec_nanos == 1234,
            r.node@ == seq![1u8, 2u8, 3u8, 4u8, 5u8, 6u8],
    {
        let r = Inputs {
            namespace: dns_namespace(),
            name: vec![0x74u8, 0x65u8, 0x73u8, 0x74u8],
            clock_seq: 42,
            seconds: 1497624119,
            subsec_nanos: 1234,
            node: [1u8, 2u8, 3u8, 4u8, 5u8, 6u8],
        };
        assert(r.node@ =~= seq![1u8, 2u8, 3u8, 4u8, 5u8, 6u8]);
        r
    }
}

/// Whether `b` is an identifier that format `f` may produce from `inp`.
/// Each carries its format's version and the RFC 4122 variant.
pub open spec fn produces(f: UUIDFormat, inp: Inputs, b: Seq<u8>) -> bool {
    &&& b.len() == 16
    &&& has_version(b, version_of(f))
    &&& match f {
        UUIDFormat::V1 => ticks_fit(inp.seconds, inp.subsec_nanos) && b == v1_layout(
            ticks_of(inp.seconds, inp.subsec_nanos) as u64,
            inp.clock_seq,
            inp.node@,
        ),
        UUIDFormat::V3 => b == md5_name_uuid(inp.namespace@, inp.name@),
        UUIDFormat::V4 => true,
        UUIDFormat::V5 => b == sha1_name_uuid(inp.namespace@, inp.name@),
    }
}

/// Whether format `f` yields an identifier from `inp`: only the time-based
/// variant can fail, on a time whose tick count overflows.
pub open spec fn generation_succeeds(f: UUIDFormat, inp: Inputs) -> bool {
    f == UUIDFormat::V1 ==> ticks_fit(inp.seconds, inp.subsec_nanos)
}

/// Whether `s` is the text of an identifier that `f` may produce from `inp`.
pub open spec fn identifier_text_of(f: UUIDFormat, inp: Inputs, s: Seq<char>) -> bool {
    exists|b: Seq<u8>| #[trigger] produces(f, inp, b) && s == canonical_text(b)
}

proof fn lemma_v1_version(ticks: u64, clock_seq: u16)
    ensures
        ((((ticks >> 56u64) & 0x0f) as u8) | 0x10u8) / 16 == 1,
        ((((clock_seq >> 8u16) & 0x3f) as u8) | 0x80u8) / 64 == 2,
{
    let a = ((ticks >> 56u64) & 0x0f) as u8;
    let c = ((clock_seq >> 8u16) & 0x3f) as u8;
    assert(a < 16) by (bit_vector)
        requires a == ((ticks >> 56u64) & 0x0f) as u8;
    assert(c < 64) by (bit_vector)
        requires c == ((clock_seq >> 8u16) & 0x3f) as u8;
    assert((a | 0x10u8) / 16 == 1) by (bit_vector)
        requires a < 16;
    assert((c | 0x80u8) / 64 == 2) by (bit_vector)
        requires c < 64;
}

/// Computes the tick count of a Unix time, or `None` where it overflows.
fn checked_ticks(seconds: u64, subsec_nanos: u32) -> (r: Option<u64>)
    ensures
        r matches Some(t) ==> ticks_fit(seconds, subsec_nanos) && t == ticks_of(seconds, subsec_nanos),
        r is None ==> !ticks_fit(seconds, subsec_nanos),
{
    match seconds.checked_mul(10_000_000) {
        None => {
            assert(seconds * 10_000_000 > u64::MAX);
            None
        },
        Some(scaled) => match scaled.checked_add(TICKS_BETWEEN_EPOCHS) {
            None => None,
            Some(t) => t.checked_add((subsec_nanos / 100) as u64),
        },
    }
}

/// The 16 bytes of a new identifier of format `f`.
pub fn generate_bytes(f: UUIDFormat, inp: &Inputs) -> (r: Result<[u8; 16], DispatchError>)
    ensures
        generation_succeeds(f, *inp) ==> (r matches Ok(b) && produces(f, *inp, b@)),
        !generation_succeeds(f, *inp) ==> r == Err::<[u8; 16], DispatchError>(
            DispatchError::TimestampOutOfRange,
        ),
{
    match f {
        UUIDFormat::V1 => {
            if checked_ticks(inp.seconds, inp.subsec_nanos).is_none() {
                return Err(DispatchError::TimestampOutOfRange);
            }
            match time_based(inp.clock_seq, inp.seconds, inp.subsec_nanos, &inp.node) {
                Some(b) => {
                    proof {
                        lemma_v1_version(
                            ticks_of(inp.seconds, inp.subsec_nanos) as u64,
                            inp.clock_seq,
                        );
                    }
                    Ok(b)
                },
                // never taken: with a 6-byte node the call always succeeds
                None => Err(DispatchError::TimestampOutOfRange),
            }
        },
        UUIDFormat::V3 => Ok(name_md5(&inp.namespace, &inp.name)),
        UUIDFormat::V4 => Ok(random_bytes()),
        UUIDFormat::V5 => Ok(name_sha1(&inp.namespace, &inp.name)),
    }
}

/// The canonical text of a new identifier of format `f`.
pub fn generate(f: UUIDFormat, inp: &Inputs) -> (r: Result<String, DispatchError>)
    ensures
        generation_succeeds(f, *inp) ==> (r matches Ok(s) && identifier_text_of(f, *inp, s@)),
        !generation_succeeds(f, *inp) ==> r == Err::<String, DispatchError>(
            DispatchError::TimestampOutOfRange,
        ),
{
    match generate_bytes(f, inp) {
        Ok(b) => {
            let s = render(&b);
            assert(produces(f, *inp, b@) && s@ == canonical_text(b@));
            Ok(s)
        },
        Err(e) => Err(e),
    }
}

/// Every identifier text that a format produces has the canonical shape.
pub proof fn lemma_identifier_is_canonical(f: UUIDFormat, inp: Inputs, s: Seq<char>)
    requires
        identifier_text_of(f, inp, s),
    ensures
        is_canonical_text(s),
{
    let b = choose|b: Seq<u8>| #[trigger] produces(f, inp, b) && s == canonical_text(b);
    lemma_canonical_text_shape(b);
}

proof fn lemma_fixed_format_unique(f: UUIDFormat, inp: Inputs, s1: Seq<char>, s2: Seq<char>)
    requires
        f != UUIDFormat::V4,
        identifier_text_of(f, inp, s1),
        identifier_text_of(f, inp, s2),
    ensures
        s1 == s2,
{
    let b1 = choose|b: Seq<u8>| #[trigger] produces(f, inp, b) && s1 == canonical_text(b);
    let b2 = choose|b: Seq<u8>| #[trigger] produces(f, inp, b) && s2 == canonical_text(b);
    assert(b1 == b2);
}

/// The MD5 name-based identifier depends on namespace and name alone: two
/// runs with the same inputs give the same text.
pub proof fn lemma_name_md5_deterministic(inp: Inputs, s1: Seq<char>, s2: Seq<char>)
    requires
        identifier_text_of(UUIDFormat::V3, inp, s1),
        identifier_text_of(UUIDFormat::V3, inp, s2),
    ensures
        s1 == s2,
{
    lemma_fixed_format_unique(UUIDFormat::V3, inp, s1, s2);
}

/// The SHA-1 name-based identifier depends on namespace and name alone: two
/// runs with the same inputs give the same text.
pub proof fn lemma_name_sha1_deterministic(inp: Inputs, s1: Seq<char>, s2: Seq<char>)
    requires
        identifier_text_of(UUIDFormat::V5, inp, s1),
        identifier_text_of(UUIDFormat::V5, inp, s2),
    ensures
        s1 == s2,
{
    lemma_fixed_format_unique(UUIDFormat::V5, inp, s1, s2);
}

/// The time-based identifier depends on clock sequence, time and node alone:
/// two runs with the same inputs give the same text.
pub proof fn lemma_time_based_deterministic(inp: Inputs, s1: Seq<char>, s2: Seq<char>)
    requires
        identifier_text_of(UUIDFormat::V1, inp, s1),
        identifier_text_of(UUIDFormat::V1, inp, s2),
    ensures
        s1 == s2,
{
    lemma_fixed_format_unique(UUIDFormat::V1, inp, s1, s2);
}

} // verus!
