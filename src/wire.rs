//! Protobuf wire primitives: base-128 varints and field tags.

use vstd::arithmetic::div_mod::{lemma_add_mod_noop, lemma_mul_mod_noop_right};
use vstd::arithmetic::power::pow;
use vstd::prelude::*;

verus! {

use crate::EspError;

/// 2^64, the modulus of `u64` arithmetic.
pub open spec fn u64_modulus() -> nat {
    0x1_0000_0000_0000_0000
}

/// The value of the varint digits in `s`, least significant group first.
pub open spec fn varint_sum(s: Seq<u8>) -> nat
    decreases s.len(),
{
    if s.len() == 0 {
        0
    } else {
        (s[0] % 128) as nat + 128 * varint_sum(s.drop_first())
    }
}

/// `s` starts with a varint of `n` bytes whose value, reduced to 64 bits, is `v`:
/// byte `n - 1` is the first byte without the continuation bit.
pub open spec fn varint_decodes(s: Seq<u8>, v: nat, n: nat) -> bool {
    &&& 1 <= n <= s.len()
    &&& s[n - 1] < 128
    &&& forall|j: int| 0 <= j < n - 1 ==> s[j] >= 128
    &&& v == varint_sum(s.subrange(0, n as int)) % u64_modulus()
}

/// Every byte of `s` carries the continuation bit.
pub open spec fn varint_unterminated(s: Seq<u8>) -> bool {
    forall|j: int| 0 <= j < s.len() ==> s[j] >= 128
}

/// The varint encoding of `v`: seven data bits per byte, least significant
/// group first, high bit set on every byte but the last.
pub open spec fn varint_spec(v: nat) -> Seq<u8>
    decreases v,
{
    if v < 128 {
        seq![v as u8]
    } else {
        seq![(v % 128 + 128) as u8] + varint_spec(v / 128)
    }
}

/// `s` with the bytes from `at` on overwritten by `b`.
pub open spec fn splice(s: Seq<u8>, at: int, b: Seq<u8>) -> Seq<u8> {
    s.subrange(0, at) + b + s.subrange(at + b.len(), s.len() as int)
}

/// Encodes `v` as a varint at the start of `out` and returns the number of
/// bytes written. When `out` is too short nothing is written and 0 is returned.
pub fn encode_varint(v: u64, out: &mut [u8]) -> (r: usize)
    ensures
        varint_spec(v as nat).len() <= old(out)@.len() ==> {
            &&& r == varint_spec(v as nat).len()
            &&& final(out)@ == splice(old(out)@, 0, varint_spec(v as nat))
        },
        varint_spec(v as nat).len() > old(out)@.len() ==> r == 0 && final(out)@ == old(out)@,
{
    encode_varint_at(v, out, 0)
}

/// Encodes `v` as a varint into `out` from index `at` on and returns the
/// number of bytes written; writes nothing and returns 0 when it does not fit.
pub fn encode_varint_at(v: u64, out: &mut [u8], at: usize) -> (r: usize)
    ensures
        at + varint_spec(v as nat).len() <= old(out)@.len() ==> {
            &&& r == varint_spec(v as nat).len()
            &&& final(out)@ == splice(old(out)@, at as int, varint_spec(v as nat))
        },
        at + varint_spec(v as nat).len() > old(out)@.len() ==> r == 0 && final(out)@ == old(out)@,
{
    let len = varint_len(v);
    if at > out.len() || len > out.len() - at {
        return 0;
    }
    let end = at + len;
    let mut val: u64 = v;
    let mut idx: usize = at;
    while val >= 128
        invariant
            at <= idx,
            idx + varint_spec(val as nat).len() == end,
            end <= out@.len(),
            out@.len() == old(out)@.len(),
            varint_spec(v as nat) == out@.subrange(at as int, idx as int) + varint_spec(val as nat),
            out@.subrange(0, at as int) == old(out)@.subrange(0, at as int),
            out@.subrange(end as int, out@.len() as int) == old(out)@.subrange(end as int, old(out)@.len() as int),
        decreases val,
    {
        let low = (val & 0x7F) as u8;
        assert(val & 0x7F == val % 128) by (bit_vector);
        assert(low < 128 ==> low | 0x80 == low + 128) by (bit_vector);
        assert(val >> 7 == val / 128) by (bit_vector);
        let ghost prev = out@;
        out[idx] = low | 0x80;
        val = val >> 7;
        idx = idx + 1;
        assert(out@.subrange(at as int, idx as int) =~= prev.subrange(at as int, idx - 1).push(out@[idx - 1]));
        assert(out@.subrange(0, at as int) =~= prev.subrange(0, at as int));
        assert(out@.subrange(end as int, out@.len() as int) =~= prev.subrange(end as int, prev.len() as int));
    }
    let ghost prev = out@;
    out[idx] = val as u8;
    idx = idx + 1;
    assert(out@.subrange(at as int, idx as int) =~= prev.subrange(at as int, idx - 1).push(out@[idx - 1]));
    assert(out@.subrange(0, at as int) =~= prev.subrange(0, at as int));
    assert(out@ =~= out@.subrange(0, at as int) + out@.subrange(at as int, idx as int) + out@.subrange(idx as int, out@.len() as int));
    assert(out@.subrange(idx as int, out@.len() as int) =~= old(out)@.subrange(idx as int, old(out)@.len() as int));
    len
}

/// Number of bytes in the varint encoding of `v`.
fn varint_len(v: u64) -> (n: usize)
    ensures
        n == varint_spec(v as nat).len(),
        1 <= n <= 10,
{
    proof {
        reveal_with_fuel(pow, 11);
        assert(pow(128, 10) == 0x4000_0000_0000_0000_00);
        lemma_varint_len_bound(v as nat, 10);
    }
    let mut val: u64 = v;
    let mut n: usize = 1;
    while val >= 128
        invariant
            n + varint_spec(val as nat).len() == varint_spec(v as nat).len() + 1,
            varint_spec(v as nat).len() <= 10,
            1 <= n,
        decreases val,
    {
        assert(val >> 7 == val / 128) by (bit_vector);
        val = val >> 7;
        n = n + 1;
    }
    n
}

/// A value below `128^k` takes at most `k` bytes.
proof fn lemma_varint_len_bound(v: nat, k: nat)
    requires
        k >= 1,
        v < pow(128, k),
    ensures
        varint_spec(v).len() <= k,
    decreases k,
{
    reveal(pow);
    if v >= 128 {
        if k == 1 {
            assert(pow(128, 0) == 1);
        } else {
            let p = pow(128, (k - 1) as nat);
            assert(v / 128 < p) by (nonlinear_arith)
                requires
                    v < 128 * p,
            ;
            lemma_varint_len_bound(v / 128, (k - 1) as nat);
        }
    }
}

/// Number of bytes of the varint that starts at index `at` of `s`: up to and
/// including the first byte without the continuation bit; 0 when there is none.
#[verifier::opaque]
pub open spec fn varint_len_at(s: Seq<u8>, at: int) -> nat
    decreases s.len() - at,
{
    if at < 0 || at >= s.len() {
        0
    } else if s[at] < 128 {
        1
    } else {
        let n = varint_len_at(s, at + 1);
        if n == 0 {
            0
        } else {
            n + 1
        }
    }
}

/// The varint that starts at index `at` of `s`, as `(value, length)`; `None`
/// when the bytes run out before a terminating byte.
pub open spec fn varint_at(s: Seq<u8>, at: int) -> Option<(u64, nat)> {
    let n = varint_len_at(s, at);
    if n == 0 {
        None
    } else {
        Some(((varint_sum(s.subrange(at, at + n)) % u64_modulus()) as u64, n))
    }
}

/// A terminated varint has the length `varint_len_at` gives.
proof fn lemma_varint_len_at_terminated(s: Seq<u8>, at: int, n: nat)
    requires
        0 <= at,
        1 <= n,
        at + n <= s.len(),
        s[at + n - 1] < 128,
        forall|j: int| at <= j < at + n - 1 ==> s[j] >= 128,
    ensures
        varint_len_at(s, at) == n,
    decreases n,
{
    reveal(varint_len_at);
    if n > 1 {
        lemma_varint_len_at_terminated(s, at + 1, (n - 1) as nat);
    }
}

/// An unterminated run has no varint.
proof fn lemma_varint_len_at_unterminated(s: Seq<u8>, at: int)
    requires
        0 <= at,
        forall|j: int| at <= j < s.len() ==> s[j] >= 128,
    ensures
        varint_len_at(s, at) == 0,
    decreases s.len() - at,
{
    reveal(varint_len_at);
    if at < s.len() {
        lemma_varint_len_at_unterminated(s, at + 1);
    }
}

/// Reads the varint at index `at` of `input` as `varint_at` describes it.
pub fn read_varint(input: &[u8], at: usize) -> (r: Result<(u64, usize), EspError>)
    ensures
        match varint_at(input@, at as int) {
            Some((v, n)) => 1 <= n && at + n <= input@.len() && r == Ok::<(u64, usize), EspError>((v, n as usize)),
            None => r == Err::<(u64, usize), EspError>(EspError::InvalidData),
        },
{
    let r = decode_varint_at(input, at);
    proof {
        let s = input@;
        match r {
            Ok((v, n)) => {
                let rest = s.subrange(at as int, s.len() as int);
                assert forall|j: int| at <= j < at + n - 1 implies s[j] >= 128 by {
                    assert(s[j] == rest[j - at]);
                }
                assert(s[at + n - 1] == rest[n - 1]);
                lemma_varint_len_at_terminated(s, at as int, n as nat);
                assert(rest.subrange(0, n as int) =~= s.subrange(at as int, at + n));
            },
            Err(_) => {
                if at < s.len() {
                    let rest = s.subrange(at as int, s.len() as int);
                    assert forall|j: int| at <= j < s.len() implies s[j] >= 128 by {
                        assert(s[j] == rest[j - at]);
                    }
                }
                lemma_varint_len_at_unterminated(s, at as int);
            },
        }
    }
    r
}

/// Decodes the varint at the start of `input`: `(value, bytes_consumed)`.
/// Digits past the 64th bit are dropped; input without a terminating byte is
/// `InvalidData`.
pub fn decode_varint(input: &[u8]) -> (r: Result<(u64, usize), EspError>)
    ensures
        match r {
            Ok((v, n)) => varint_decodes(input@, v as nat, n as nat),
            Err(e) => e == EspError::InvalidData && varint_unterminated(input@),
        },
{
    let r = decode_varint_at(input, 0);
    assert(input@.subrange(0, input@.len() as int) =~= input@);
    r
}

/// Decodes the varint that starts at index `at` of `input`.
pub fn decode_varint_at(input: &[u8], at: usize) -> (r: Result<(u64, usize), EspError>)
    ensures
        match r {
            Ok((v, n)) => at < input@.len() && varint_decodes(input@.subrange(at as int, input@.len() as int), v as nat, n as nat),
            Err(e) => e == EspError::InvalidData && (at >= input@.len() || varint_unterminated(input@.subrange(at as int, input@.len() as int))),
        },
{
    if at >= input.len() {
        return Err(EspError::InvalidData);
    }
    let ghost s = input@.subrange(at as int, input@.len() as int);
    let mut val: u64 = 0;
    let mut scale: u64 = 1;
    let mut idx: usize = at;
    proof {
        reveal(pow);
        assert(s.subrange(0, 0) =~= Seq::<u8>::empty());
    }
    while idx < input.len()
        invariant
            at <= idx <= input@.len(),
            s == input@.subrange(at as int, input@.len() as int),
            forall|j: int| 0 <= j < idx - at ==> s[j] >= 128,
            val as nat == varint_sum(s.subrange(0, idx - at)) % u64_modulus(),
            scale as int == pow(128, (idx - at) as nat) % (u64_modulus() as int),
        decreases input.len() - idx,
    {
        let byte = input[idx];
        let digit = (byte & 0x7F) as u64;
        assert(byte & 0x7F == byte % 128) by (bit_vector);
        assert(byte & 0x80 == 0 <==> byte < 128) by (bit_vector);
        proof {
            let k = (idx - at) as nat;
            let p = pow(128, k);
            let m = u64_modulus() as int;
            lemma_varint_sum_push(s.subrange(0, k as int), byte);
            assert(s.subrange(0, k as int).push(byte) =~= s.subrange(0, k + 1 as int));
            lemma_mul_mod_noop_right(digit as int, p, m);
            lemma_add_mod_noop(varint_sum(s.subrange(0, k as int)) as int, digit * p, m);
            reveal(pow);
            assert(pow(128, k + 1) == 128 * p);
            lemma_mul_mod_noop_right(128, p, m);
        }
        val = val.wrapping_add(digit.wrapping_mul(scale));
        if byte & 0x80 == 0 {
            return Ok((val, idx - at + 1));
        }
        scale = scale.wrapping_mul(128);
        idx = idx + 1;
    }
    Err(EspError::InvalidData)
}

/// Appending a digit adds it at the next power of 128.
proof fn lemma_varint_sum_push(s: Seq<u8>, b: u8)
    ensures
        varint_sum(s.push(b)) == varint_sum(s) + (b % 128) as nat * pow(128, s.len()),
    decreases s.len(),
{
    reveal(pow);
    if s.len() == 0 {
        assert(s.push(b).drop_first() =~= Seq::<u8>::empty());
        assert(varint_sum(Seq::<u8>::empty()) == 0);
        assert(pow(128, 0) == 1);
        assert(varint_sum(s.push(b)) == (b % 128) as nat);
    } else {
        assert(s.push(b).drop_first() =~= s.drop_first().push(b));
        lemma_varint_sum_push(s.drop_first(), b);
        let p = pow(128, (s.len() - 1) as nat);
        let x = varint_sum(s.drop_first());
        let d = (b % 128) as nat;
        assert(pow(128, s.len()) == 128 * p);
        assert(s.push(b)[0] == s[0]);
        assert(varint_sum(s.push(b)) == (s[0] % 128) as nat + 128 * varint_sum(s.drop_first().push(b)));
        assert(varint_sum(s) == (s[0] % 128) as nat + 128 * x);
        assert(128 * (x + d * p) == 128 * x + d * (128 * p)) by (nonlinear_arith);
    }
}

/// The encoding of `v` is read back as `v` with exactly its own length,
/// whatever bytes follow it.
pub proof fn lemma_varint_round_trip(v: u64, rest: Seq<u8>)
    ensures
        varint_decodes(varint_spec(v as nat) + rest, v as nat, varint_spec(v as nat).len()),
{
    lemma_varint_spec_shape(v as nat);
    let e = varint_spec(v as nat);
    assert((e + rest).subrange(0, e.len() as int) =~= e);
    assert(forall|j: int| 0 <= j < e.len() ==> (e + rest)[j] == e[j]);
    assert((v as nat) % u64_modulus() == v as nat);
}

/// Shape and value of `varint_spec(v)`.
proof fn lemma_varint_spec_shape(v: nat)
    ensures
        varint_spec(v).len() >= 1,
        varint_spec(v)[varint_spec(v).len() - 1] < 128,
        forall|j: int| 0 <= j < varint_spec(v).len() - 1 ==> varint_spec(v)[j] >= 128,
        varint_sum(varint_spec(v)) == v,
    decreases v,
{
    if v >= 128 {
        lemma_varint_spec_shape(v / 128);
        let e = varint_spec(v);
        assert(e.drop_first() =~= varint_spec(v / 128));
        assert(e[0] == (v % 128 + 128) as u8);
        assert(e[0] % 128 == v % 128);
        assert(varint_sum(e) == (e[0] % 128) as nat + 128 * varint_sum(e.drop_first()));
        assert(v == v % 128 + 128 * (v / 128)) by (nonlinear_arith);
    } else {
        assert(varint_spec(v).drop_first() =~= Seq::<u8>::empty());
        assert(varint_sum(Seq::<u8>::empty()) == 0);
        assert(varint_spec(v)[0] == v as u8);
    }
}

/// Protobuf wire types.
#[derive(Clone, Copy, Debug, PartialEq, Eq, Structural)]
pub enum WireType {
    /// int32, int64, uint32, uint64, sint, bool, enum
    Varint,
    /// fixed64, sfixed64, double
    I64,
    /// Length-delimited: string, bytes, embedded messages, packed repeated fields
    Len,
    /// fixed32, sfixed32, float
    I32,
}

impl WireType {
    /// The three-bit code of this wire type.
    pub open spec fn spec_val(self) -> u8 {
        match self {
            WireType::Varint => 0,
            WireType::I64 => 1,
            WireType::Len => 2,
            WireType::I32 => 5,
        }
    }

    /// The three-bit code of this wire type.
    pub fn val(&self) -> (r: u8)
        ensures
            r == self.spec_val(),
    {
        match self {
            WireType::Varint => 0,
            WireType::I64 => 1,
            WireType::Len => 2,
            WireType::I32 => 5,
        }
    }

    /// The wire type with code `b`, if there is one.
    pub open spec fn spec_from_val(b: u8) -> Option<WireType> {
        if b == 0 {
            Some(WireType::Varint)
        } else if b == 1 {
            Some(WireType::I64)
        } else if b == 2 {
            Some(WireType::Len)
        } else if b == 5 {
            Some(WireType::I32)
        } else {
            None
        }
    }

    /// The wire type with code `b`; `InvalidData` for an unknown code.
    pub fn from_val(b: u8) -> (r: Result<WireType, EspError>)
        ensures
            match WireType::spec_from_val(b) {
                Some(w) => r == Ok::<WireType, EspError>(w),
                None => r == Err::<WireType, EspError>(EspError::InvalidData),
            },
    {
        match b {
            0 => Ok(WireType::Varint),
            1 => Ok(WireType::I64),
            2 => Ok(WireType::Len),
            5 => Ok(WireType::I32),
            _ => Err(EspError::InvalidData),
        }
    }
}

/// The tag of field `field` with wire type `w`: `(field << 3) | w`, in 16 bits.
pub open spec fn tag_spec(field: u16, w: WireType) -> u16 {
    ((field as int * 8) % 0x10000 + w.spec_val()) as u16
}

/// Builds the tag `(field << 3) | wire_type`.
pub fn encode_tag(field: u16, wire_type: WireType) -> (r: u16)
    ensures
        r == tag_spec(field, wire_type),
{
    let w = wire_type.val() as u16;
    assert(w < 8 ==> (field << 3) | w == ((field as int * 8) % 0x10000 + w) as u16) by (bit_vector);
    (field << 3) | w
}

/// Splits a tag into field number and wire type; `InvalidData` when the low
/// three bits name no wire type.
pub fn decode_tag(val: u16) -> (r: Result<(u16, WireType), EspError>)
    ensures
        match WireType::spec_from_val((val % 8) as u8) {
            Some(w) => r == Ok::<(u16, WireType), EspError>((val / 8, w)),
            None => r == Err::<(u16, WireType), EspError>(EspError::InvalidData),
        },
{
    assert(val >> 3 == val / 8 && val & 7 == val % 8) by (bit_vector);
    let w = WireType::from_val((val & 7) as u8)?;
    Ok((val >> 3, w))
}

/// A tag decodes to the field and wire type it was built from, for every
/// field number that fits in thirteen bits.
pub proof fn lemma_tag_round_trip(field: u16, w: WireType)
    requires
        field < 0x2000,
    ensures
        tag_spec(field, w) / 8 == field,
        WireType::spec_from_val((tag_spec(field, w) % 8) as u8) == Some(w),
{
}

/// The bytes of one scalar field: varint tag, then varint value.
pub open spec fn field_spec(field: u16, w: WireType, val: u64) -> Seq<u8> {
    varint_spec(tag_spec(field, w) as nat) + varint_spec(val as nat)
}

/// Writes the tag of `field` and the varint `val` at `*i`, advancing `*i`.
/// `Capacity`, with nothing written, when they do not fit.
pub fn write_rpc(buf: &mut [u8], field: u16, wire_type: WireType, val: u64, i: &mut usize) -> (r: Result<(), EspError>)
    ensures
        *old(i) + field_spec(field, wire_type, val).len() <= old(buf)@.len() ==> {
            &&& r is Ok
            &&& *final(i) == *old(i) + field_spec(field, wire_type, val).len()
            &&& final(buf)@ == splice(old(buf)@, *old(i) as int, field_spec(field, wire_type, val))
        },
        *old(i) + field_spec(field, wire_type, val).len() > old(buf)@.len() ==> {
            &&& r == Err::<(), EspError>(EspError::Capacity)
            &&& *final(i) == *old(i)
            &&& final(buf)@ == old(buf)@
        },
{
    let tag = encode_tag(field, wire_type);
    let tag_len = varint_len(tag as u64);
    let val_len = varint_len(val);
    if *i > buf.len() || tag_len + val_len > buf.len() - *i {
        return Err(EspError::Capacity);
    }
    let ghost b0 = buf@;
    let n1 = encode_varint_at(tag as u64, buf, *i);
    let n2 = encode_varint_at(val, buf, *i + n1);
    assert(buf@ =~= splice(b0, *old(i) as int, field_spec(field, wire_type, val)));
    *i = *i + n1 + n2;
    Ok(())
}

/// Little-endian bytes of `x`.
pub open spec fn le16(x: u16) -> Seq<u8> {
    seq![(x % 256) as u8, (x / 256) as u8]
}

/// The little-endian `u16` at index `at` of `s`.
pub open spec fn le16_at(s: Seq<u8>, at: int) -> u16 {
    (s[at] + 256 * s[at + 1]) as u16
}

/// Writes `x` little-endian at `out[at..at + 2]`.
pub fn put_le16(out: &mut [u8], at: usize, x: u16)
    requires
        at + 2 <= old(out)@.len(),
    ensures
        final(out)@ == splice(old(out)@, at as int, le16(x)),
{
    assert((x & 0xff) as u8 == x % 256 && (x >> 8) as u8 == x / 256) by (bit_vector);
    out[at] = (x & 0xff) as u8;
    out[at + 1] = (x >> 8) as u8;
    assert(out@ =~= splice(old(out)@, at as int, le16(x)));
}

/// Reads the little-endian `u16` at `buf[at..at + 2]`.
pub fn get_le16(buf: &[u8], at: usize) -> (r: u16)
    requires
        at + 2 <= buf@.len(),
    ensures
        r == le16_at(buf@, at as int),
{
    let lo = buf[at] as u16;
    let hi = buf[at + 1] as u16;
    assert(hi < 256 && lo < 256 ==> lo | (hi << 8) == lo + 256 * hi) by (bit_vector);
    lo | (hi << 8)
}

/// Copies `src` into `out` from index `at` on.
pub fn copy_into(out: &mut [u8], at: usize, src: &[u8])
    requires
        at + src@.len() <= old(out)@.len(),
    ensures
        final(out)@ == splice(old(out)@, at as int, src@),
{
    let n = out.len();
    let mut k: usize = 0;
    while k < src.len()
        invariant
            n == out@.len(),
            k <= src@.len(),
            at + src@.len() <= out@.len(),
            out@.len() == old(out)@.len(),
            out@ == splice(old(out)@, at as int, src@.subrange(0, k as int)),
        decreases src.len() - k,
    {
        let ghost prev = out@;
        out[at + k] = src[k];
        assert(forall|j: int| 0 <= j < out@.len() && j != at + k ==> out@[j] == prev[j]);
        k = k + 1;
        assert(out@ =~= splice(old(out)@, at as int, src@.subrange(0, k as int)));
    }
    assert(src@.subrange(0, k as int) =~= src@);
}

/// A varint encoding placed after any bytes `pre` is read back by `varint_at`.
pub proof fn lemma_varint_at_concat(pre: Seq<u8>, v: u64, rest: Seq<u8>)
    ensures
        varint_at(pre + varint_spec(v as nat) + rest, pre.len() as int) == Some((v, varint_spec(v as nat).len())),
{
    let e = varint_spec(v as nat);
    let s = pre + e + rest;
    lemma_varint_round_trip(v, rest);
    let t = e + rest;
    let n = e.len();
    assert forall|j: int| pre.len() <= j < pre.len() + n - 1 implies s[j] >= 128 by {
        assert(s[j] == t[j - pre.len()]);
    }
    assert(s[pre.len() + n - 1] == t[n - 1]);
    lemma_varint_len_at_terminated(s, pre.len() as int, n);
    assert(s.subrange(pre.len() as int, pre.len() + n as int) =~= t.subrange(0, n as int));
}

/// Splicing `a` and then `b` right after it is splicing `a + b`.
pub proof fn lemma_splice_append(s: Seq<u8>, at: int, a: Seq<u8>, b: Seq<u8>)
    requires
        0 <= at,
        at + a.len() + b.len() <= s.len(),
    ensures
        splice(splice(s, at, a), at + a.len(), b) == splice(s, at, a + b),
{
    assert(splice(splice(s, at, a), at + a.len(), b) =~= splice(s, at, a + b));
}

/// The 64-bit two's-complement bits of `d`, as protobuf encodes an `int32`.
pub open spec fn i32_bits(d: i32) -> u64 {
    if d >= 0 {
        d as u64
    } else {
        (d + 0x1_0000_0000_0000_0000) as u64
    }
}

/// The 64-bit two's-complement bits of `d`.
pub fn i32_to_u64(d: i32) -> (r: u64)
    ensures
        r == i32_bits(d),
{
    if d >= 0 {
        d as u64
    } else {
        u64::MAX - ((-(d as i64) - 1) as u64)
    }
}

/// Varint fields numbered `first`, `first + 1`, ... holding `vals` in order.
pub open spec fn varint_fields_spec(first: u16, vals: Seq<u64>) -> Seq<u8>
    decreases vals.len(),
{
    if vals.len() == 0 {
        seq![]
    } else {
        varint_fields_spec(first, vals.drop_last()) + field_spec(
            (first + vals.len() - 1) as u16,
            WireType::Varint,
            vals.last(),
        )
    }
}

/// Writes varint fields numbered from `first` on, holding `vals`, at the
/// start of `buf`. Returns the bytes written, or `Capacity` when they do not fit.
pub fn write_varint_fields(buf: &mut [u8], first: u16, vals: &[u64]) -> (r: Result<usize, EspError>)
    requires
        first as int + vals@.len() <= 0x10000,
    ensures
        varint_fields_spec(first, vals@).len() <= old(buf)@.len() ==> {
            &&& r == Ok::<usize, EspError>(varint_fields_spec(first, vals@).len() as usize)
            &&& final(buf)@ == splice(old(buf)@, 0, varint_fields_spec(first, vals@))
        },
        varint_fields_spec(first, vals@).len() > old(buf)@.len() ==> r == Err::<usize, EspError>(EspError::Capacity),
{
    let mut i: usize = 0;
    let mut k: usize = 0;
    while k < vals.len()
        invariant
            k <= vals@.len(),
            first as int + vals@.len() <= 0x10000,
            buf@.len() == old(buf)@.len(),
            i == varint_fields_spec(first, vals@.take(k as int)).len(),
            buf@ == splice(old(buf)@, 0, varint_fields_spec(first, vals@.take(k as int))),
            i <= buf@.len(),
        decreases vals.len() - k,
    {
        let ghost before = varint_fields_spec(first, vals@.take(k as int));
        let ghost field = field_spec((first + k) as u16, WireType::Varint, vals@[k as int]);
        assert(vals@.take(k + 1).drop_last() =~= vals@.take(k as int));
        assert(varint_fields_spec(first, vals@.take(k + 1)) == before + field);
        let ghost b0 = buf@;
        if write_rpc(buf, first + k as u16, WireType::Varint, vals[k], &mut i).is_err() {
            proof {
                lemma_varint_fields_prefix(first, vals@, (k + 1) as nat);
            }
            return Err(EspError::Capacity);
        }
        proof {
            lemma_splice_append(old(buf)@, 0, before, field);
        }
        k = k + 1;
    }
    assert(vals@.take(k as int) =~= vals@);
    Ok(i)
}

/// The fields of a prefix of `vals` are no longer than those of all of them.
proof fn lemma_varint_fields_prefix(first: u16, vals: Seq<u64>, k: nat)
    requires
        k <= vals.len(),
    ensures
        varint_fields_spec(first, vals.take(k as int)).len() <= varint_fields_spec(first, vals).len(),
    decreases vals.len() - k,
{
    if k < vals.len() {
        lemma_varint_fields_prefix(first, vals, k + 1);
        assert(vals.take(k + 1 as int).drop_last() =~= vals.take(k as int));
    } else {
        assert(vals.take(k as int) =~= vals);
    }
}

/// A varint of a `u64` takes at most ten bytes.
pub proof fn lemma_varint_len_le_10(v: u64)
    ensures
        varint_spec(v as nat).len() <= 10,
{
    reveal_with_fuel(pow, 11);
    assert(pow(128, 10) == 0x4000_0000_0000_0000_00);
    lemma_varint_len_bound(v as nat, 10);
}

/// A varint field with a number below 16 holding a `u32` takes at most six
/// bytes: a one-byte tag and at most five value bytes.
pub proof fn lemma_u32_field_len(field: u16, v: u32)
    requires
        field < 16,
    ensures
        field_spec(field, WireType::Varint, v as u64).len() <= 6,
{
    reveal_with_fuel(pow, 6);
    assert(pow(128, 5) == 0x8_0000_0000);
    assert(pow(128, 1) == 128);
    lemma_varint_len_bound(v as nat, 5);
    lemma_varint_len_bound(tag_spec(field, WireType::Varint) as nat, 1);
}

/// A varint field takes at most thirteen bytes: a tag of at most three
/// bytes and a value of at most ten.
pub proof fn lemma_field_len(field: u16, w: WireType, v: u64)
    ensures
        field_spec(field, w, v).len() <= 13,
{
    reveal_with_fuel(pow, 11);
    assert(pow(128, 10) == 0x4000_0000_0000_0000_00);
    assert(pow(128, 3) == 0x20_0000);
    lemma_varint_len_bound(v as nat, 10);
    lemma_varint_len_bound(tag_spec(field, w) as nat, 3);
}

/// Varint fields holding `vals` take at most thirteen bytes each.
pub proof fn lemma_varint_fields_len(first: u16, vals: Seq<u64>)
    ensures
        varint_fields_spec(first, vals).len() <= 13 * vals.len(),
    decreases vals.len(),
{
    if vals.len() > 0 {
        lemma_varint_fields_len(first, vals.drop_last());
        lemma_field_len((first + vals.len() - 1) as u16, WireType::Varint, vals.last());
    }
}

/// Appends field `field` holding `val` at `*i`, where `buf` holds `pre` over
/// `b0`. `Capacity` when it does not fit.
pub fn append_field(
    buf: &mut [u8],
    i: &mut usize,
    field: u16,
    w: WireType,
    val: u64,
    b0: Ghost<Seq<u8>>,
    pre: Ghost<Seq<u8>>,
) -> (r: Result<(), EspError>)
    requires
        old(buf)@ == splice(b0@, 0, pre@),
        *old(i) == pre@.len(),
        pre@.len() <= b0@.len(),
    ensures
        match r {
            Ok(_) => {
                &&& final(buf)@ == splice(b0@, 0, pre@ + field_spec(field, w, val))
                &&& *final(i) == pre@.len() + field_spec(field, w, val).len()
                &&& *final(i) <= b0@.len()
            },
            Err(e) => e == EspError::Capacity && pre@.len() + field_spec(field, w, val).len() > b0@.len(),
        },
{
    let r = write_rpc(buf, field, w, val, i);
    proof {
        if r is Ok {
            lemma_splice_append(b0@, 0, pre@, field_spec(field, w, val));
        }
    }
    r
}

/// Appends the bytes of `src` at `*i`, where `buf` holds `pre` over `b0`.
/// `Capacity` when they do not fit.
pub fn append_bytes(buf: &mut [u8], i: &mut usize, src: &[u8], b0: Ghost<Seq<u8>>, pre: Ghost<Seq<u8>>) -> (r: Result<(), EspError>)
    requires
        old(buf)@ == splice(b0@, 0, pre@),
        *old(i) == pre@.len(),
        pre@.len() <= b0@.len(),
    ensures
        match r {
            Ok(_) => {
                &&& final(buf)@ == splice(b0@, 0, pre@ + src@)
                &&& *final(i) == pre@.len() + src@.len()
                &&& *final(i) <= b0@.len()
            },
            Err(e) => e == EspError::Capacity && pre@.len() + src@.len() > b0@.len(),
        },
{
    if src.len() > buf.len() - *i {
        return Err(EspError::Capacity);
    }
    copy_into(buf, *i, src);
    proof {
        lemma_splice_append(b0@, 0, pre@, src@);
    }
    *i = *i + src.len();
    Ok(())
}

/// A byte without the continuation bit is a one-byte varint of its own value.
pub proof fn lemma_varint_at_one_byte(s: Seq<u8>, at: int)
    requires
        0 <= at < s.len(),
        s[at] < 128,
    ensures
        varint_at(s, at) == Some((s[at] as u64, 1nat)),
{
    reveal(varint_len_at);
    let t = s.subrange(at, at + 1);
    assert(t.drop_first() =~= Seq::<u8>::empty());
    assert(varint_sum(Seq::<u8>::empty()) == 0);
    assert(varint_sum(t) == (t[0] % 128) as nat + 128 * varint_sum(t.drop_first()));
}

} // verus!
