//! Rewrites the timestamp that the kernel puts in ICMP echo replies, so that
//! `ping` prints a made-up round-trip time, or draws a banner with it.
pub mod letters;
pub mod packet;

use vstd::prelude::*;
use vstd::arithmetic::div_mod::lemma_mod_add_multiples_vanish;
use letters::{banner_deltas, get_word, UnknownLetter};

verus! {

/// Byte order of a field on the wire.
#[derive(Clone, Copy, Debug, PartialEq, Eq, Structural)]
pub enum Endianness {
    Big,
    Little,
}

/// Width of each of the two fields of a `timeval`: 32 or 64 bits.
#[derive(Clone, Copy, Debug, PartialEq, Eq, Structural)]
pub enum Width {
    Narrow,
    Wide,
}

/// The integer that eight bytes spell, least significant byte first.
pub open spec fn u64_le(
    b0: u8,
    b1: u8,
    b2: u8,
    b3: u8,
    b4: u8,
    b5: u8,
    b6: u8,
    b7: u8,
) -> u64 {
    (b0 as u64) | ((b1 as u64) << 8u64) | ((b2 as u64) << 16u64) | ((b3 as u64) << 24u64) | ((
    b4 as u64) << 32u64) | ((b5 as u64) << 40u64) | ((b6 as u64) << 48u64) | ((b7 as u64)
        << 56u64)
}

/// The integer that four bytes spell, least significant byte first.
pub open spec fn u32_le(b0: u8, b1: u8, b2: u8, b3: u8) -> u32 {
    (b0 as u32) | ((b1 as u32) << 8u32) | ((b2 as u32) << 16u32) | ((b3 as u32) << 24u32)
}

/// The unsigned 64-bit integer stored at `s[lo..lo + 8]` in byte order `o`.
pub open spec fn u64_at(s: Seq<u8>, lo: int, o: Endianness) -> u64 {
    match o {
        Endianness::Little => u64_le(
            s[lo],
            s[lo + 1],
            s[lo + 2],
            s[lo + 3],
            s[lo + 4],
            s[lo + 5],
            s[lo + 6],
            s[lo + 7],
        ),
        Endianness::Big => u64_le(
            s[lo + 7],
            s[lo + 6],
            s[lo + 5],
            s[lo + 4],
            s[lo + 3],
            s[lo + 2],
            s[lo + 1],
            s[lo],
        ),
    }
}

/// The unsigned 32-bit integer stored at `s[lo..lo + 4]` in byte order `o`.
pub open spec fn u32_at(s: Seq<u8>, lo: int, o: Endianness) -> u32 {
    match o {
        Endianness::Little => u32_le(s[lo], s[lo + 1], s[lo + 2], s[lo + 3]),
        Endianness::Big => u32_le(s[lo + 3], s[lo + 2], s[lo + 1], s[lo]),
    }
}

/// The eight bytes of `v`, least significant first.
pub open spec fn u64_le_bytes(v: u64) -> Seq<u8> {
    seq![
        v as u8,
        (v >> 8u64) as u8,
        (v >> 16u64) as u8,
        (v >> 24u64) as u8,
        (v >> 32u64) as u8,
        (v >> 40u64) as u8,
        (v >> 48u64) as u8,
        (v >> 56u64) as u8,
    ]
}

/// The four bytes of `v`, least significant first.
pub open spec fn u32_le_bytes(v: u32) -> Seq<u8> {
    seq![v as u8, (v >> 8u32) as u8, (v >> 16u32) as u8, (v >> 24u32) as u8]
}

/// The bytes of `v` in byte order `o`.
pub open spec fn u64_bytes(v: u64, o: Endianness) -> Seq<u8> {
    match o {
        Endianness::Little => u64_le_bytes(v),
        Endianness::Big => u64_le_bytes(v).reverse(),
    }
}

/// The bytes of `v` in byte order `o`.
pub open spec fn u32_bytes(v: u32, o: Endianness) -> Seq<u8> {
    match o {
        Endianness::Little => u32_le_bytes(v),
        Endianness::Big => u32_le_bytes(v).reverse(),
    }
}

/// Bytes taken by one field of a `timeval` of width `w`.
pub open spec fn field_size(w: Width) -> int {
    match w {
        Width::Narrow => 4,
        Width::Wide => 8,
    }
}

/// Bytes taken by a whole `timeval` (seconds, then microseconds).
pub open spec fn timeval_size(w: Width) -> int {
    2 * field_size(w)
}

/// The signed field at `s[lo..]`, read with width `w` and byte order `o`.
pub open spec fn field_at(s: Seq<u8>, lo: int, w: Width, o: Endianness) -> int {
    match w {
        Width::Narrow => u32_at(s, lo, o) as i32 as int,
        Width::Wide => u64_at(s, lo, o) as i64 as int,
    }
}

/// The seconds of the `timeval` at the start of `s`.
pub open spec fn seconds_of(s: Seq<u8>, w: Width, o: Endianness) -> int {
    field_at(s, 0, w, o)
}

/// The microseconds of the `timeval` at the start of `s`.
pub open spec fn micros_of(s: Seq<u8>, w: Width, o: Endianness) -> int {
    field_at(s, field_size(w), w, o)
}

/// `s` is longer than a `timeval` of width `w`, and read that way its
/// microseconds lie within one second.
pub open spec fn plausible(s: Seq<u8>, w: Width, o: Endianness) -> bool {
    &&& s.len() > timeval_size(w)
    &&& 0 <= micros_of(s, w, o) <= 999_999
}

/// The encodings tried, in order. A wide big-endian `timeval` is left out:
/// it matches too many narrow little-endian ones.
pub open spec fn candidates() -> Seq<(Width, Endianness)> {
    seq![
        (Width::Wide, Endianness::Little),
        (Width::Narrow, Endianness::Little),
        (Width::Narrow, Endianness::Big),
    ]
}

/// The first encoding under which `s` holds a plausible `timeval`.
pub open spec fn detect(s: Seq<u8>) -> Option<(Width, Endianness)> {
    if plausible(s, Width::Wide, Endianness::Little) {
        Some((Width::Wide, Endianness::Little))
    } else if plausible(s, Width::Narrow, Endianness::Little) {
        Some((Width::Narrow, Endianness::Little))
    } else if plausible(s, Width::Narrow, Endianness::Big) {
        Some((Width::Narrow, Endianness::Big))
    } else {
        None
    }
}

/// What a narrow `timeval` loses from its seconds: its fields have too few
/// digits to draw with, so a fixed amount stands out instead.
pub const NARROW_DELTA: i32 = 1337;

/// The bytes of the new seconds field: a wide one loses `delta`, a narrow one
/// `NARROW_DELTA`, both wrapping around.
pub open spec fn new_seconds_bytes(s: Seq<u8>, w: Width, o: Endianness, delta: i64) -> Seq<u8> {
    match w {
        Width::Wide => u64_bytes((u64_at(s, 0, o) as i64).wrapping_sub(delta) as u64, o),
        Width::Narrow => u32_bytes((u32_at(s, 0, o) as i32).wrapping_sub(NARROW_DELTA) as u32, o),
    }
}

/// `s` with the seconds of its leading `timeval` moved back.
pub open spec fn adjusted(s: Seq<u8>, w: Width, o: Endianness, delta: i64) -> Seq<u8> {
    new_seconds_bytes(s, w, o, delta) + s.skip(field_size(w))
}

/// `b` with `b[lo..hi]` replaced by `mid`.
pub open spec fn splice(b: Seq<u8>, lo: int, hi: int, mid: Seq<u8>) -> Seq<u8> {
    b.take(lo) + mid + b.skip(hi)
}

/// Why no timestamp could be adjusted.
#[derive(Clone, Copy, Debug, PartialEq, Eq, Structural)]
pub enum AdjustError {
    /// The data is too short to hold the `timeval`.
    TooShort,
    /// The data does not read as a `timeval`.
    NotATimeval,
}

/// A source of the seconds to take from each echo reply's timestamp.
pub trait TimevalAdder {
    /// The delta, in seconds, for ICMP sequence number `seq`.
    spec fn increment_for(&self, seq: u16) -> i64;

    /// Returns the delta for `seq`. Sequence numbers start at 1 in most
    /// `ping` implementations. The delta depends on the sequence number
    /// alone: asking does not change the answers.
    fn get_increment(&mut self, seq: u16) -> (r: i64)
        ensures
            r == old(self).increment_for(seq),
            forall|s: u16| #[trigger] final(self).increment_for(s) == old(self).increment_for(s),
    ;
}

/// Takes the same number of seconds from every reply.
pub struct ConstantTimevalAdder(pub i64);

impl ConstantTimevalAdder {
    pub fn new(x: i64) -> (r: Self)
        ensures
            r.0 == x,
            forall|seq: u16| r.increment_for(seq) == x,
    {
        Self(x)
    }
}

impl TimevalAdder for ConstantTimevalAdder {
    open spec fn increment_for(&self, seq: u16) -> i64 {
        self.0
    }

    fn get_increment(&mut self, seq: u16) -> (r: i64) {
        self.0
    }
}

/// The entry of a banner's deltas for sequence number `seq`: numbering starts
/// at 1 and runs round the deltas; 0 counts as 1.
pub open spec fn banner_delta(deltas: Seq<i64>, seq: u16) -> i64 {
    let i = if seq >= 1 { seq - 1 } else { 0 };
    deltas[i % deltas.len() as int]
}

/// Draws a message, one glyph row per sequence number, through the digits of
/// the round-trip time:
///
/// ```text
/// time=700000000777041 ms
/// time=700777770077059 ms (DUP!)
/// time=700777770077042 ms (DUP!)
/// time=700000000777039 ms (DUP!)
/// time=700777770077061 ms (DUP!)
/// time=700777770077161 ms (DUP!)
/// time=700000000777042 ms (DUP!)
/// ```
pub struct BannerTimevalAdder {
    deltas: Vec<i64>,
}

impl BannerTimevalAdder {
    #[verifier::type_invariant]
    spec fn has_rows(self) -> bool {
        self.deltas.len() > 0
    }

    /// The deltas drawn, in order.
    pub closed spec fn deltas(self) -> Seq<i64> {
        self.deltas@
    }

    /// Creates an adder that draws `msg`, or names the first character of it
    /// that has no glyph.
    pub fn new(msg: &str) -> (r: Result<Self, UnknownLetter>)
        ensures
            match r {
                Ok(a) => {
                    &&& banner_deltas(msg@) == Ok::<Seq<i64>, char>(a.deltas())
                    &&& a.deltas().len() > 0
                },
                Err(e) => banner_deltas(msg@) == Err::<Seq<i64>, char>(e.0),
            },
    {
        match get_word(msg) {
            Ok(deltas) => {
                proof {
                    letters::lemma_deltas_nonempty(msg@);
                }
                Ok(Self { deltas })
            },
            Err(e) => Err(e),
        }
    }

    /// The deltas drawn, one per sequence number from 1 on.
    pub fn delta_list(&self) -> (r: &[i64])
        ensures
            r@ == self.deltas(),
    {
        self.deltas.as_slice()
    }

    /// The number of deltas drawn before the banner starts over.
    pub fn len(&self) -> (r: usize)
        ensures
            r == self.deltas().len(),
            r > 0,
    {
        proof {
            use_type_invariant(self);
        }
        self.deltas.len()
    }
}

impl TimevalAdder for BannerTimevalAdder {
    open spec fn increment_for(&self, seq: u16) -> i64 {
        banner_delta(self.deltas(), seq)
    }

    fn get_increment(&mut self, seq: u16) -> (r: i64) {
        proof {
            use_type_invariant(&*self);
        }
        let i: usize = if seq >= 1 { seq as usize - 1 } else { 0 };
        self.deltas[i % self.deltas.len()]
    }
}

/// Reads the unsigned 64-bit integer at `b[lo..lo + 8]`.
fn read_u64(b: &[u8], lo: usize, o: Endianness) -> (r: u64)
    requires
        lo + 8 <= b@.len(),
    ensures
        r == u64_at(b@, lo as int, o),
{
    proof {
        assert(b@.len() == b.len());
    }
    match o {
        Endianness::Little => (b[lo] as u64) | ((b[lo + 1] as u64) << 8u64) | ((b[lo + 2] as u64)
            << 16u64) | ((b[lo + 3] as u64) << 24u64) | ((b[lo + 4] as u64) << 32u64) | ((b[lo
            + 5] as u64) << 40u64) | ((b[lo + 6] as u64) << 48u64) | ((b[lo + 7] as u64)
            << 56u64),
        Endianness::Big => (b[lo + 7] as u64) | ((b[lo + 6] as u64) << 8u64) | ((b[lo + 5] as u64)
            << 16u64) | ((b[lo + 4] as u64) << 24u64) | ((b[lo + 3] as u64) << 32u64) | ((b[lo
            + 2] as u64) << 40u64) | ((b[lo + 1] as u64) << 48u64) | ((b[lo] as u64) << 56u64),
    }
}

/// Reads the unsigned 32-bit integer at `b[lo..lo + 4]`.
fn read_u32(b: &[u8], lo: usize, o: Endianness) -> (r: u32)
    requires
        lo + 4 <= b@.len(),
    ensures
        r == u32_at(b@, lo as int, o),
{
    proof {
        assert(b@.len() == b.len());
    }
    match o {
        Endianness::Little => (b[lo] as u32) | ((b[lo + 1] as u32) << 8u32) | ((b[lo + 2] as u32)
            << 16u32) | ((b[lo + 3] as u32) << 24u32),
        Endianness::Big => (b[lo + 3] as u32) | ((b[lo + 2] as u32) << 8u32) | ((b[lo + 1] as u32)
            << 16u32) | ((b[lo] as u32) << 24u32),
    }
}

/// Stores `v` at `b[lo..lo + 8]`.
fn write_u64(b: &mut [u8], lo: usize, v: u64, o: Endianness)
    requires
        lo + 8 <= old(b)@.len(),
    ensures
        final(b)@ == splice(old(b)@, lo as int, lo + 8, u64_bytes(v, o)),
{
    proof {
        assert(b@.len() == b.len());
    }
    match o {
        Endianness::Little => {
            b[lo] = v as u8;
            b[lo + 1] = (v >> 8u64) as u8;
            b[lo + 2] = (v >> 16u64) as u8;
            b[lo + 3] = (v >> 24u64) as u8;
            b[lo + 4] = (v >> 32u64) as u8;
            b[lo + 5] = (v >> 40u64) as u8;
            b[lo + 6] = (v >> 48u64) as u8;
            b[lo + 7] = (v >> 56u64) as u8;
        },
        Endianness::Big => {
            b[lo + 7] = v as u8;
            b[lo + 6] = (v >> 8u64) as u8;
            b[lo + 5] = (v >> 16u64) as u8;
            b[lo + 4] = (v >> 24u64) as u8;
            b[lo + 3] = (v >> 32u64) as u8;
            b[lo + 2] = (v >> 40u64) as u8;
            b[lo + 1] = (v >> 48u64) as u8;
            b[lo] = (v >> 56u64) as u8;
        },
    }
    assert(b@ =~= splice(old(b)@, lo as int, lo + 8, u64_bytes(v, o)));
}

/// Stores `v` at `b[lo..lo + 4]`.
fn write_u32(b: &mut [u8], lo: usize, v: u32, o: Endianness)
    requires
        lo + 4 <= old(b)@.len(),
    ensures
        final(b)@ == splice(old(b)@, lo as int, lo + 4, u32_bytes(v, o)),
{
    proof {
        assert(b@.len() == b.len());
    }
    match o {
        Endianness::Little => {
            b[lo] = v as u8;
            b[lo + 1] = (v >> 8u32) as u8;
            b[lo + 2] = (v >> 16u32) as u8;
            b[lo + 3] = (v >> 24u32) as u8;
        },
        Endianness::Big => {
            b[lo + 3] = v as u8;
            b[lo + 2] = (v >> 8u32) as u8;
            b[lo + 1] = (v >> 16u32) as u8;
            b[lo] = (v >> 24u32) as u8;
        },
    }
    assert(b@ =~= splice(old(b)@, lo as int, lo + 4, u32_bytes(v, o)));
}

/// Moves back the seconds of the `timeval` at the start of `b[lo..hi]`, read
/// with width `w` and byte order `o`, if it reads as one.
fn try_adjust<F: TimevalAdder>(
    b: &mut [u8],
    lo: usize,
    hi: usize,
    w: Width,
    o: Endianness,
    seq: u16,
    f: &mut F,
) -> (r: Result<(), AdjustError>)
    requires
        lo <= hi <= old(b)@.len(),
    ensures
        ({
            let s = old(b)@.subrange(lo as int, hi as int);
            if s.len() <= timeval_size(w) {
                &&& r == Err::<(), AdjustError>(AdjustError::TooShort)
                &&& final(b)@ == old(b)@
                &&& *final(f) == *old(f)
            } else if !plausible(s, w, o) {
                &&& r == Err::<(), AdjustError>(AdjustError::NotATimeval)
                &&& final(b)@ == old(b)@
                &&& *final(f) == *old(f)
            } else {
                &&& r == Ok::<(), AdjustError>(())
                &&& final(b)@ == splice(
                    old(b)@,
                    lo as int,
                    hi as int,
                    adjusted(s, w, o, old(f).increment_for(seq)),
                )
                &&& w == Width::Narrow ==> *final(f) == *old(f)
            }
        }),
{
    let ghost s = b@.subrange(lo as int, hi as int);
    let size: usize = match w {
        Width::Narrow => 8,
        Width::Wide => 16,
    };
    if hi - lo <= size {
        return Err(AdjustError::TooShort);
    }
    match w {
        Width::Wide => {
            let usec = read_u64(b, lo + 8, o) as i64;
            assert(usec == micros_of(s, w, o));
            if usec < 0 || usec > 999_999 {
                return Err(AdjustError::NotATimeval);
            }
            let sec = read_u64(b, lo, o);
            assert(sec == u64_at(s, 0, o));
            let delta = f.get_increment(seq);
            write_u64(b, lo, (sec as i64).wrapping_sub(delta) as u64, o);
            assert(b@ =~= splice(old(b)@, lo as int, hi as int, adjusted(s, w, o, delta)));
        },
        Width::Narrow => {
            let usec = read_u32(b, lo + 4, o) as i32;
            assert(usec == micros_of(s, w, o));
            if usec < 0 || usec > 999_999 {
                return Err(AdjustError::NotATimeval);
            }
            let sec = read_u32(b, lo, o);
            assert(sec == u32_at(s, 0, o));
            write_u32(b, lo, (sec as i32).wrapping_sub(NARROW_DELTA) as u32, o);
            assert(b@ =~= splice(
                old(b)@,
                lo as int,
                hi as int,
                adjusted(s, w, o, old(f).increment_for(seq)),
            ));
        },
    }
    Ok(())
}

/// Moves back the seconds of the `timeval` at the start of `b[lo..hi]`, under
/// the first encoding that reads as one; fails, leaving `b` as it was, if none
/// does.
pub(crate) fn adjust_timestamp<F: TimevalAdder>(
    b: &mut [u8],
    lo: usize,
    hi: usize,
    seq: u16,
    f: &mut F,
) -> (r: Result<(), ()>)
    requires
        lo <= hi <= old(b)@.len(),
    ensures
        ({
            let s = old(b)@.subrange(lo as int, hi as int);
            match detect(s) {
                None => {
                    &&& r == Err::<(), ()>(())
                    &&& final(b)@ == old(b)@
                    &&& *final(f) == *old(f)
                },
                Some((w, o)) => {
                    &&& r == Ok::<(), ()>(())
                    &&& final(b)@ == splice(
                        old(b)@,
                        lo as int,
                        hi as int,
                        adjusted(s, w, o, old(f).increment_for(seq)),
                    )
                },
            }
        }),
{
    if try_adjust(b, lo, hi, Width::Wide, Endianness::Little, seq, f).is_ok() {
        return Ok(());
    }
    if try_adjust(b, lo, hi, Width::Narrow, Endianness::Little, seq, f).is_ok() {
        return Ok(());
    }
    if try_adjust(b, lo, hi, Width::Narrow, Endianness::Big, seq, f).is_ok() {
        return Ok(());
    }
    Err(())
}

/// Moves back the seconds of the `timeval` that the kernel put at the start of
/// an echo reply's payload `b`, by `f`'s delta for sequence number `seq`.
///
/// The encoding is detected: a 64-bit little-endian `timeval` first, then a
/// 32-bit one in little-endian, then in big-endian order. A 32-bit one has too
/// few digits to draw with, so it loses `NARROW_DELTA` seconds and `f` is not
/// asked. Fails, leaving `b` as it was, where no encoding fits.
pub fn modify_icmp_payload<F: TimevalAdder>(b: &mut [u8], seq: u16, f: &mut F) -> (r: Result<
    (),
    (),
>)
    ensures
        match detect(old(b)@) {
            None => {
                &&& r == Err::<(), ()>(())
                &&& final(b)@ == old(b)@
            },
            Some((w, o)) => {
                &&& r == Ok::<(), ()>(())
                &&& final(b)@ == adjusted(old(b)@, w, o, old(f).increment_for(seq))
            },
        },
{
    let len = b.len();
    let r = adjust_timestamp(b, 0, len, seq, f);
    assert(old(b)@.subrange(0, len as int) =~= old(b)@);
    proof {
        if let Some((w, o)) = detect(old(b)@) {
            assert(b@ =~= adjusted(old(b)@, w, o, old(f).increment_for(seq)));
        }
    }
    r
}

/// A banner repeats: sequence numbers `k` and `k` plus its length give the
/// same delta.
pub proof fn lemma_banner_cycle(a: BannerTimevalAdder, k: u16, j: u16)
    requires
        k >= 1,
        j == k + a.deltas().len(),
    ensures
        a.increment_for(k) == a.increment_for(j),
{
    if a.deltas().len() > 0 {
        lemma_mod_add_multiples_vanish(k - 1, a.deltas().len() as int);
    }
}

/// A timestamp is found exactly where one of the candidate encodings reads
/// as one, and the first such encoding in the order tried is the one used.
pub proof fn lemma_detect_first_plausible(s: Seq<u8>)
    ensures
        detect(s) is Some <==> exists|i: int|
            0 <= i < 3 && plausible(s, #[trigger] candidates()[i].0, candidates()[i].1),
        forall|i: int|
            0 <= i < 3 && detect(s) == Some(#[trigger] candidates()[i]) ==> {
                &&& plausible(s, candidates()[i].0, candidates()[i].1)
                &&& forall|j: int|
                    0 <= j < i ==> !plausible(s, #[trigger] candidates()[j].0, candidates()[j].1)
            },
{
    let c = candidates();
    if plausible(s, c[0].0, c[0].1) {
        assert(detect(s) is Some);
    }
    if plausible(s, c[1].0, c[1].1) {
        assert(detect(s) is Some);
    }
    if plausible(s, c[2].0, c[2].1) {
        assert(detect(s) is Some);
    }
}

/// Adjusting a timestamp changes only its seconds field: the length, the
/// microseconds and every byte after the seconds stay.
pub proof fn lemma_adjust_locality(s: Seq<u8>, w: Width, o: Endianness, delta: i64)
    requires
        s.len() > timeval_size(w),
    ensures
        adjusted(s, w, o, delta).len() == s.len(),
        forall|i: int|
            field_size(w) <= i < s.len() ==> #[trigger] adjusted(s, w, o, delta)[i] == s[i],
        micros_of(adjusted(s, w, o, delta), w, o) == micros_of(s, w, o),
{
    let a = adjusted(s, w, o, delta);
    assert(new_seconds_bytes(s, w, o, delta).len() == field_size(w));
    assert forall|i: int| field_size(w) <= i < s.len() implies #[trigger] a[i] == s[i] by {}
}

/// The eight bytes of `v` read back as `v`.
proof fn lemma_u64_round_trip(v: u64, o: Endianness, rest: Seq<u8>)
    ensures
        u64_at(u64_bytes(v, o) + rest, 0, o) == v,
{
    let b = u64_bytes(v, o) + rest;
    assert(u64_le(
        v as u8,
        (v >> 8u64) as u8,
        (v >> 16u64) as u8,
        (v >> 24u64) as u8,
        (v >> 32u64) as u8,
        (v >> 40u64) as u8,
        (v >> 48u64) as u8,
        (v >> 56u64) as u8,
    ) == v) by (bit_vector);
    assert(b[0] == u64_bytes(v, o)[0]);
    assert(b[1] == u64_bytes(v, o)[1]);
    assert(b[2] == u64_bytes(v, o)[2]);
    assert(b[3] == u64_bytes(v, o)[3]);
    assert(b[4] == u64_bytes(v, o)[4]);
    assert(b[5] == u64_bytes(v, o)[5]);
    assert(b[6] == u64_bytes(v, o)[6]);
    assert(b[7] == u64_bytes(v, o)[7]);
}

/// The four bytes of `v` read back as `v`.
proof fn lemma_u32_round_trip(v: u32, o: Endianness, rest: Seq<u8>)
    ensures
        u32_at(u32_bytes(v, o) + rest, 0, o) == v,
{
    let b = u32_bytes(v, o) + rest;
    assert(u32_le(v as u8, (v >> 8u32) as u8, (v >> 16u32) as u8, (v >> 24u32) as u8) == v)
        by (bit_vector);
    assert(b[0] == u32_bytes(v, o)[0]);
    assert(b[1] == u32_bytes(v, o)[1]);
    assert(b[2] == u32_bytes(v, o)[2]);
    assert(b[3] == u32_bytes(v, o)[3]);
}

/// A wide timestamp's seconds lose exactly `delta`, modulo 2^64, and stay a
/// signed 64-bit value.
pub proof fn lemma_wide_seconds(s: Seq<u8>, o: Endianness, delta: i64)
    requires
        s.len() > timeval_size(Width::Wide),
    ensures
        (seconds_of(adjusted(s, Width::Wide, o, delta), Width::Wide, o) - (seconds_of(
            s,
            Width::Wide,
            o,
        ) - delta)) % 0x1_0000_0000_0000_0000 == 0,
        i64::MIN <= seconds_of(adjusted(s, Width::Wide, o, delta), Width::Wide, o) <= i64::MAX,
{
    let v = (u64_at(s, 0, o) as i64).wrapping_sub(delta);
    let x = u64_at(s, 0, o) as i64;
    lemma_u64_round_trip(v as u64, o, s.skip(8));
    assert((v as u64) as i64 == v) by (bit_vector);
    assert(v == x - delta || v == x - delta - 0x1_0000_0000_0000_0000 || v == x - delta
        + 0x1_0000_0000_0000_0000);
}

/// A narrow timestamp's seconds lose exactly `NARROW_DELTA`, modulo 2^32, and
/// stay a signed 32-bit value.
pub proof fn lemma_narrow_seconds(s: Seq<u8>, o: Endianness, delta: i64)
    requires
        s.len() > timeval_size(Width::Narrow),
    ensures
        (seconds_of(adjusted(s, Width::Narrow, o, delta), Width::Narrow, o) - (seconds_of(
            s,
            Width::Narrow,
            o,
        ) - NARROW_DELTA)) % 0x1_0000_0000 == 0,
        i32::MIN <= seconds_of(adjusted(s, Width::Narrow, o, delta), Width::Narrow, o) <= i32::MAX,
{
    let v = (u32_at(s, 0, o) as i32).wrapping_sub(NARROW_DELTA);
    let x = u32_at(s, 0, o) as i32;
    lemma_u32_round_trip(v as u32, o, s.skip(4));
    assert((v as u32) as i32 == v) by (bit_vector);
    assert(v == x - NARROW_DELTA || v == x - NARROW_DELTA - 0x1_0000_0000 || v == x - NARROW_DELTA
        + 0x1_0000_0000);
}

} // verus!
