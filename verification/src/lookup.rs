//! Turning a user-supplied key into a ring id, as the lookup tool does it:
//! a raw key is the id written in decimal, any other key is hashed the same
//! way node addresses are.

use vstd::prelude::*;

use vstd::string::StringSliceAdditionalSpecFns;

use crate::hash::{hash_bytes, seahash_of};
use crate::NodeId;

verus! {

/// Why a lookup key was rejected.
#[derive(Clone, Debug)]
pub enum LookupError {
    KeyParseError(String),
}

/// Why a ping target was rejected.
#[derive(Clone, Debug)]
pub enum PingError {
    KeyParseError(String),
}

/// A command failure as shown to the user.
#[derive(Clone, Debug)]
pub struct Error {
    pub message: String,
}

impl From<LookupError> for Error {
    fn from(err: LookupError) -> (r: Error) {
        match err {
            LookupError::KeyParseError(msg) => Error { message: msg },
        }
    }
}

impl vstd::std_specs::convert::FromSpecImpl<LookupError> for Error {
    open spec fn obeys_from_spec() -> bool {
        true
    }

    open spec fn from_spec(err: LookupError) -> Error {
        match err {
            LookupError::KeyParseError(msg) => Error { message: msg },
        }
    }
}

impl From<PingError> for Error {
    fn from(err: PingError) -> (r: Error) {
        match err {
            PingError::KeyParseError(msg) => Error { message: msg },
        }
    }
}

impl vstd::std_specs::convert::FromSpecImpl<PingError> for Error {
    open spec fn obeys_from_spec() -> bool {
        true
    }

    open spec fn from_spec(err: PingError) -> Error {
        match err {
            PingError::KeyParseError(msg) => Error { message: msg },
        }
    }
}

/// An ASCII decimal digit.
pub open spec fn is_dec_digit(b: u8) -> bool {
    48 <= b <= 57
}

/// Every byte is an ASCII decimal digit.
pub open spec fn all_dec_digits(s: Seq<u8>) -> bool {
    forall|i: int| 0 <= i < s.len() ==> is_dec_digit(#[trigger] s[i])
}

/// The bytes carrying the digits: everything after an optional leading `+`.
pub open spec fn digits_part(s: Seq<u8>) -> Seq<u8> {
    if s.len() > 0 && s[0] == 43 {
        s.drop_first()
    } else {
        s
    }
}

/// The number the digit bytes spell in decimal.
pub open spec fn dec_value(s: Seq<u8>) -> int
    decreases s.len(),
{
    if s.len() == 0 {
        0
    } else {
        dec_value(s.drop_last()) * 10 + (s.last() - 48)
    }
}

/// A key that denotes an id directly: an optional `+`, then one or more
/// decimal digits spelling a number that fits in 64 bits.
pub open spec fn valid_raw_key(s: Seq<u8>) -> bool {
    let d = digits_part(s);
    &&& d.len() > 0
    &&& all_dec_digits(d)
    &&& dec_value(d) <= u64::MAX
}

proof fn lemma_dec_value_nonneg(s: Seq<u8>)
    requires
        all_dec_digits(s),
    ensures
        dec_value(s) >= 0,
    decreases s.len(),
{
    if s.len() > 0 {
        assert(forall|i: int| 0 <= i < s.drop_last().len() ==> s.drop_last()[i] == s[i]);
        lemma_dec_value_nonneg(s.drop_last());
    }
}

/// Dropping trailing digits never increases the value.
proof fn lemma_dec_value_prefix(s: Seq<u8>, j: int)
    requires
        all_dec_digits(s),
        0 <= j <= s.len(),
    ensures
        dec_value(s.subrange(0, j)) <= dec_value(s),
    decreases s.len(),
{
    if j == s.len() {
        assert(s.subrange(0, j) =~= s);
    } else {
        assert(forall|i: int| 0 <= i < s.drop_last().len() ==> s.drop_last()[i] == s[i]);
        assert(s.subrange(0, j) =~= s.drop_last().subrange(0, j));
        lemma_dec_value_prefix(s.drop_last(), j);
        lemma_dec_value_nonneg(s.drop_last());
    }
}

/// Parse a decimal key (optional leading `+`) into a 64-bit id. Returns
/// `Ok` exactly on keys that spell a number fitting in 64 bits, and then
/// returns that number.
pub fn parse_u64_key(key: &str) -> (r: Result<u64, LookupError>)
    ensures
        r is Ok <==> valid_raw_key(key.spec_bytes()),
        r matches Ok(v) ==> v == dec_value(digits_part(key.spec_bytes())),
{
    let bytes = key.as_bytes();
    let ghost digits = digits_part(key.spec_bytes());
    let mut i: usize = 0;
    if bytes.len() > 0 && bytes[0] == 43 {
        i = 1;
    }
    let ghost start = i as int;
    proof {
        assert(digits =~= bytes@.subrange(start, bytes@.len() as int));
    }
    if i >= bytes.len() {
        return Err(LookupError::KeyParseError("cannot parse an empty key".to_string()));
    }
    let mut acc: u64 = 0;
    while i < bytes.len()
        invariant
            bytes@ == key.spec_bytes(),
            digits == digits_part(key.spec_bytes()),
            digits =~= bytes@.subrange(start, bytes@.len() as int),
            0 <= start <= i <= bytes@.len(),
            all_dec_digits(bytes@.subrange(start, i as int)),
            acc == dec_value(bytes@.subrange(start, i as int)),
        decreases bytes@.len() - i,
    {
        let b = bytes[i];
        if b < 48 || b > 57 {
            proof {
                assert(digits[i - start] == bytes@[i as int]);
                assert(!all_dec_digits(digits));
            }
            return Err(LookupError::KeyParseError("invalid digit in key".to_string()));
        }
        let d = (b - 48) as u64;
        proof {
            assert(bytes@.subrange(start, i as int + 1).drop_last() =~= bytes@.subrange(
                start,
                i as int,
            ));
            assert(bytes@.subrange(start, i as int + 1).last() == bytes@[i as int]);
        }
        let next = match acc.checked_mul(10) {
            Some(x) => x.checked_add(d),
            None => None,
        };
        match next {
            Some(v) => {
                acc = v;
            },
            None => {
                proof {
                    let consumed = bytes@.subrange(start, i as int + 1);
                    assert(dec_value(consumed) == acc * 10 + d);
                    if all_dec_digits(digits) {
                        assert(consumed =~= digits.subrange(0, i as int + 1 - start));
                        lemma_dec_value_prefix(digits, i as int + 1 - start);
                    }
                }
                return Err(
                    LookupError::KeyParseError("key does not fit in 64 bits".to_string()),
                );
            },
        }
        i = i + 1;
    }
    proof {
        assert(bytes@.subrange(start, bytes@.len() as int) =~= digits);
    }
    Ok(acc)
}

/// The id a lookup key resolves: a raw key is read as a decimal id, any
/// other key is hashed with SeaHash, exactly as node addresses are.
pub fn lookup_key(key: &str, raw: bool) -> (r: Result<NodeId, LookupError>)
    ensures
        raw ==> {
            &&& (r is Ok <==> valid_raw_key(key.spec_bytes()))
            &&& (r matches Ok(n) ==> n.0 == dec_value(digits_part(key.spec_bytes())))
        },
        !raw ==> (r matches Ok(n) && n.0 == seahash_of(key.spec_bytes())),
{
    if raw {
        match parse_u64_key(key) {
            Ok(v) => Ok(NodeId(v)),
            Err(e) => Err(e),
        }
    } else {
        Ok(NodeId(hash_bytes(key.as_bytes())))
    }
}

} // verus!
