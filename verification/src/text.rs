//! Message text: the decimal rendering of readings, written through
//! fixed-capacity `heapless` strings as the node sends them.

use vstd::prelude::*;
use vstd::string::StringSliceAdditionalSpecFns;

verus! {

broadcast use vstd::string::is_ascii_spec_bytes;

#[verifier::external_type_specification]
#[verifier::external_body]
pub struct ExHeaplessString<const N: usize>(heapless::String<N>);

/// Capacity of the string that carries a temperature message.
pub const TEMPERATURE_CAPACITY: usize = 20;

/// Capacity of the string that carries a humidity message.
pub const HUMIDITY_CAPACITY: usize = 30;

/// The ASCII digits of `n` in base ten, most significant first.
pub open spec fn digits(n: nat) -> Seq<u8>
    decreases n,
{
    if n < 10 {
        seq![(48 + n) as u8]
    } else {
        digits(n / 10).push((48 + n % 10) as u8)
    }
}

/// The decimal text of `n` as `Display` writes it: a leading `-` for negative
/// numbers, then the digits of the magnitude.
pub open spec fn decimal(n: int) -> Seq<u8> {
    if n < 0 {
        seq![45u8] + digits((-n) as nat)
    } else {
        digits(n as nat)
    }
}

/// The bytes of `_tmp`, the suffix of a temperature message.
pub open spec fn temperature_suffix() -> Seq<u8> {
    seq![95u8, 116u8, 109u8, 112u8]
}

/// The bytes of `_humidity`, the suffix of a humidity message.
pub open spec fn humidity_suffix() -> Seq<u8> {
    seq![95u8, 104u8, 117u8, 109u8, 105u8, 100u8, 105u8, 116u8, 121u8]
}

/// The bytes of `FIRE`, the flame warning.
pub open spec fn fire_text() -> Seq<u8> {
    seq![70u8, 73u8, 82u8, 69u8]
}

/// The message that reports temperature `t`: its decimal text, then `_tmp`.
pub open spec fn temperature_text(t: int) -> Seq<u8> {
    decimal(t) + temperature_suffix()
}

/// The message that reports relative humidity `h`: its decimal text, then `_humidity`.
pub open spec fn humidity_text(h: int) -> Seq<u8> {
    decimal(h) + humidity_suffix()
}

/// A number below 1000 has at most three digits.
pub proof fn lemma_digits_len_below_1000(n: nat)
    requires
        n < 1000,
    ensures
        1 <= digits(n).len() <= 3,
    decreases n,
{
    if n >= 10 {
        lemma_digits_len_below_1000(n / 10);
        if n / 10 < 10 {
            assert(digits(n / 10).len() == 1);
        } else {
            assert(n / 10 / 10 < 10);
            assert(digits(n / 10 / 10).len() == 1);
        }
    }
}

/// The decimal text of an `i8` or a `u8` is at most four bytes long.
pub proof fn lemma_decimal_len_small(n: int)
    requires
        -128 <= n <= 255,
    ensures
        1 <= decimal(n).len() <= 4,
{
    if n < 0 {
        lemma_digits_len_below_1000((-n) as nat);
    } else {
        lemma_digits_len_below_1000(n as nat);
    }
}

/// The bytes held by a `heapless::String<20>`.
pub uninterp spec fn text20(s: heapless::String<20>) -> Seq<u8>;

/// The bytes held by a `heapless::String<30>`.
pub uninterp spec fn text30(s: heapless::String<30>) -> Seq<u8>;

/// Calls `<heapless::String<20> as TryFrom<i8>>::try_from`, which writes the
/// number with `Display` and fails exactly when that text does not fit in 20 bytes.
#[verifier::external_body]
fn text20_from_i8(v: i8) -> (r: Result<heapless::String<20>, ()>)
    ensures
        r is Ok <==> decimal(v as int).len() <= 20,
        r matches Ok(s) ==> text20(s) == decimal(v as int),
{
    heapless::String::<20>::try_from(v)
}

/// Calls `<heapless::String<30> as TryFrom<u8>>::try_from`, which writes the
/// number with `Display` and fails exactly when that text does not fit in 30 bytes.
#[verifier::external_body]
fn text30_from_u8(v: u8) -> (r: Result<heapless::String<30>, ()>)
    ensures
        r is Ok <==> decimal(v as int).len() <= 30,
        r matches Ok(s) ==> text30(s) == decimal(v as int),
{
    heapless::String::<30>::try_from(v)
}

/// Calls `heapless::String::<20>::push_str`: it appends the UTF-8 bytes of `t`
/// when they fit in the remaining capacity, and otherwise fails and leaves the
/// string as it was.
#[verifier::external_body]
fn text20_push_str(s: &mut heapless::String<20>, t: &str) -> (r: Result<(), ()>)
    ensures
        r is Ok <==> text20(*old(s)).len() + t.spec_bytes().len() <= 20,
        r is Ok ==> text20(*final(s)) == text20(*old(s)) + t.spec_bytes(),
        r is Err ==> text20(*final(s)) == text20(*old(s)),
{
    s.push_str(t)
}

/// Calls `heapless::String::<30>::push_str`: it appends the UTF-8 bytes of `t`
/// when they fit in the remaining capacity, and otherwise fails and leaves the
/// string as it was.
#[verifier::external_body]
fn text30_push_str(s: &mut heapless::String<30>, t: &str) -> (r: Result<(), ()>)
    ensures
        r is Ok <==> text30(*old(s)).len() + t.spec_bytes().len() <= 30,
        r is Ok ==> text30(*final(s)) == text30(*old(s)) + t.spec_bytes(),
        r is Err ==> text30(*final(s)) == text30(*old(s)),
{
    s.push_str(t)
}

/// Copies out the bytes of a `heapless::String<20>` (its `as_bytes`).
#[verifier::external_body]
fn text20_bytes(s: &heapless::String<20>) -> (r: Vec<u8>)
    ensures
        r@ == text20(*s),
{
    s.as_bytes().to_vec()
}

/// Copies out the bytes of a `heapless::String<30>` (its `as_bytes`).
#[verifier::external_body]
fn text30_bytes(s: &heapless::String<30>) -> (r: Vec<u8>)
    ensures
        r@ == text30(*s),
{
    s.as_bytes().to_vec()
}

/// The temperature message for reading `t`: the decimal text of `t` followed
/// by `_tmp`, built in a 20-byte `heapless` string, which it always fits.
pub fn temperature_payload(t: i8) -> (r: Vec<u8>)
    ensures
        r@ == temperature_text(t as int),
        r@.len() <= TEMPERATURE_CAPACITY,
{
    proof {
        lemma_decimal_len_small(t as int);
    }
    let suffix = "_tmp";
    proof {
        reveal_strlit("_tmp");
        assert(vstd::string::is_ascii(suffix));
        assert(suffix.spec_bytes() =~= temperature_suffix());
    }
    match text20_from_i8(t) {
        Ok(mut s) => {
            match text20_push_str(&mut s, suffix) {
                Ok(()) => text20_bytes(&s),
                Err(()) => {
                    assert(false);
                    Vec::new()
                },
            }
        },
        Err(()) => {
            assert(false);
            Vec::new()
        },
    }
}

/// The humidity message for reading `h`: the decimal text of `h` followed by
/// `_humidity`, built in a 30-byte `heapless` string, which it always fits.
pub fn humidity_payload(h: u8) -> (r: Vec<u8>)
    ensures
        r@ == humidity_text(h as int),
        r@.len() <= HUMIDITY_CAPACITY,
{
    proof {
        lemma_decimal_len_small(h as int);
    }
    let suffix = "_humidity";
    proof {
        reveal_strlit("_humidity");
        assert(vstd::string::is_ascii(suffix));
        assert(suffix.spec_bytes() =~= humidity_suffix());
    }
    match text30_from_u8(h) {
        Ok(mut s) => {
            match text30_push_str(&mut s, suffix) {
                Ok(()) => text30_bytes(&s),
                Err(()) => {
                    assert(false);
                    Vec::new()
                },
            }
        },
        Err(()) => {
            assert(false);
            Vec::new()
        },
    }
}

/// The flame warning message, `FIRE`.
pub fn fire_payload() -> (r: Vec<u8>)
    ensures
        r@ == fire_text(),
{
    let mut r: Vec<u8> = Vec::new();
    r.push(70u8);
    r.push(73u8);
    r.push(82u8);
    r.push(69u8);
    assert(r@ =~= fire_text());
    r
}

} // verus!
