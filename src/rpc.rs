use vstd::prelude::*;
use vstd::string::{StrSliceExecFns, StringExecFns};

verus! {

/// A remote-procedure call as it arrives: a method name and string parameters.
#[derive(Clone, Debug)]
pub struct JSONRPCPayload {
    pub method: String,
    pub params: Vec<String>,
}

/// The typed requests.
#[derive(Clone, Copy, Debug, PartialEq, Eq, Structural)]
pub enum JSONRPCMethod {
    /// Network, epoch.
    OrandGetPublicEpoch(i32, i32),
    /// New epoch of the given network.
    OrandNewEpoch(i32),
}

/// Why a payload does not decode to a request.
#[derive(Clone, Copy, Debug, PartialEq, Eq, Structural)]
pub enum RpcError {
    /// The method name is not one of the known ones.
    UnsupportedMethod,
    /// Fewer parameters than the method takes.
    MissingParams,
    /// A parameter is not a decimal `i32`.
    InvalidParam,
}

/// An ASCII decimal digit.
pub open spec fn is_digit(c: char) -> bool {
    '0' <= c && c <= '9'
}

/// The value of a string of decimal digits.
pub open spec fn digits_value(s: Seq<char>) -> int
    decreases s.len(),
{
    if s.len() == 0 {
        0
    } else {
        digits_value(s.drop_last()) * 10 + (s.last() as int - '0' as int)
    }
}

/// Every character is a decimal digit.
pub open spec fn all_digits(d: Seq<char>) -> bool {
    forall|i: int| 0 <= i < d.len() ==> is_digit(#[trigger] d[i])
}

/// The string without its leading `+` or `-`, if it has one.
pub open spec fn unsigned_part(s: Seq<char>) -> Seq<char> {
    if s.len() > 0 && (s[0] == '-' || s[0] == '+') {
        s.drop_first()
    } else {
        s
    }
}

/// The `i32` that a string denotes: an optional `+` or `-`, then one or more
/// decimal digits, with a value in range.
pub open spec fn decimal_i32_of(s: Seq<char>) -> Option<int> {
    let digits = unsigned_part(s);
    let value = if s.len() > 0 && s[0] == '-' {
        -digits_value(digits)
    } else {
        digits_value(digits)
    };
    if digits.len() > 0 && all_digits(digits) && i32::MIN <= value <= i32::MAX {
        Some(value)
    } else {
        None
    }
}

proof fn lemma_digits_prefix_le(t: Seq<char>, m: int)
    requires
        0 <= m <= t.len(),
        forall|i: int| 0 <= i < t.len() ==> is_digit(#[trigger] t[i]),
    ensures
        0 <= digits_value(t.subrange(0, m)) <= digits_value(t),
    decreases t.len(),
{
    if m < t.len() {
        let u = t.drop_last();
        assert(u.subrange(0, m) =~= t.subrange(0, m));
        lemma_digits_prefix_le(u, m);
        lemma_digits_prefix_le(u, u.len() as int);
        assert(u.subrange(0, u.len() as int) =~= u);
    } else {
        assert(t.subrange(0, m) =~= t);
        if t.len() > 0 {
            lemma_digits_prefix_le(t.drop_last(), t.len() - 1);
            assert(t.drop_last().subrange(0, t.len() - 1) =~= t.drop_last());
        }
    }
}

/// Parses an `i32` written as an optional `+` or `-` and decimal digits.
pub fn parse_i32(s: &str) -> (r: Option<i32>)
    ensures
        r is Some <==> decimal_i32_of(s@) is Some,
        r is Some ==> r->0 as int == decimal_i32_of(s@)->0,
{
    let n = s.unicode_len();
    if n == 0 {
        return None;
    }
    let first = s.get_char(0);
    let neg = first == '-';
    let start: usize = if first == '-' || first == '+' { 1 } else { 0 };
    let ghost digits = unsigned_part(s@);
    assert(digits =~= s@.subrange(start as int, n as int));
    if start >= n {
        return None;
    }
    let mut acc: u64 = 0;
    let mut i: usize = start;
    while i < n
        invariant
            start <= i <= n,
            n == s@.len(),
            digits =~= s@.subrange(start as int, n as int),
            digits == unsigned_part(s@),
            acc as int == digits_value(digits.subrange(0, i - start)),
            acc <= 0x8000_0000,
            forall|j: int| 0 <= j < i - start ==> is_digit(#[trigger] digits[j]),
        decreases n - i,
    {
        let c = s.get_char(i);
        if !('0' <= c && c <= '9') {
            assert(!is_digit(digits[i - start]));
            assert(decimal_i32_of(s@) is None);
            return None;
        }
        let d = (c as u32 - '0' as u32) as u64;
        assert(digits.subrange(0, i + 1 - start).drop_last() =~= digits.subrange(0, i - start));
        acc = acc * 10 + d;
        i = i + 1;
        assert(is_digit(digits[i - 1 - start]));
        assert(acc as int == digits_value(digits.subrange(0, i - start)));
        if acc > 0x8000_0000 {
            proof {
                let k = i - start;
                if all_digits(digits) {
                    lemma_digits_prefix_le(digits, k);
                    assert(digits_value(digits) > 0x8000_0000);
                }
            }
            assert(decimal_i32_of(s@) is None);
            return None;
        }
    }
    assert(digits.subrange(0, n - start) =~= digits);
    if neg {
        Some((0 - (acc as i64)) as i32)
    } else if acc <= 0x7fff_ffff {
        Some(acc as i32)
    } else {
        None
    }
}

/// The name of the request for a network's public epoch.
pub open spec fn get_public_epoch_name() -> Seq<char> {
    seq!['o', 'r', 'a', 'n', 'd', '_', 'g', 'e', 't', 'P', 'u', 'b', 'l', 'i', 'c', 'E', 'p', 'o', 'c', 'h']
}

/// The name of the request that advances a network to a new epoch.
pub open spec fn new_epoch_name() -> Seq<char> {
    seq!['o', 'r', 'a', 'n', 'd', '_', 'n', 'e', 'w', 'E', 'p', 'o', 'c', 'h']
}

/// The request that a payload denotes, or why there is none.
pub open spec fn method_of(method: Seq<char>, params: Seq<Seq<char>>) -> Result<JSONRPCMethod, RpcError> {
    if method == get_public_epoch_name() {
        if params.len() < 2 {
            Err(RpcError::MissingParams)
        } else if decimal_i32_of(params[0]) is None || decimal_i32_of(params[1]) is None {
            Err(RpcError::InvalidParam)
        } else {
            Ok(
                JSONRPCMethod::OrandGetPublicEpoch(
                    decimal_i32_of(params[0])->0 as i32,
                    decimal_i32_of(params[1])->0 as i32,
                ),
            )
        }
    } else if method == new_epoch_name() {
        if params.len() < 1 {
            Err(RpcError::MissingParams)
        } else if decimal_i32_of(params[0]) is None {
            Err(RpcError::InvalidParam)
        } else {
            Ok(JSONRPCMethod::OrandNewEpoch(decimal_i32_of(params[0])->0 as i32))
        }
    } else {
        Err(RpcError::UnsupportedMethod)
    }
}

impl JSONRPCPayload {
    /// The parameters as character sequences.
    pub open spec fn params_view(&self) -> Seq<Seq<char>> {
        self.params@.map_values(|p: String| p@)
    }
}

impl JSONRPCMethod {
    /// Decodes a payload into a typed request.
    pub fn from_payload(payload: &JSONRPCPayload) -> (r: Result<JSONRPCMethod, RpcError>)
        ensures
            r == method_of(payload.method@, payload.params_view()),
    {
        let get_public_epoch = <String as StringExecFns>::from_str("orand_getPublicEpoch");
        let new_epoch = <String as StringExecFns>::from_str("orand_newEpoch");
        proof {
            reveal_strlit("orand_getPublicEpoch");
            reveal_strlit("orand_newEpoch");
            assert(get_public_epoch@ =~= get_public_epoch_name());
            assert(new_epoch@ =~= new_epoch_name());
        }
        let params = &payload.params;
        if payload.method == get_public_epoch {
            if params.len() < 2 {
                return Err(RpcError::MissingParams);
            }
            let network = parse_i32(params[0].as_str());
            let epoch = parse_i32(params[1].as_str());
            match (network, epoch) {
                (Some(n), Some(e)) => Ok(JSONRPCMethod::OrandGetPublicEpoch(n, e)),
                _ => Err(RpcError::InvalidParam),
            }
        } else if payload.method == new_epoch {
            if params.len() < 1 {
                return Err(RpcError::MissingParams);
            }
            match parse_i32(params[0].as_str()) {
                Some(n) => Ok(JSONRPCMethod::OrandNewEpoch(n)),
                None => Err(RpcError::InvalidParam),
            }
        } else {
            Err(RpcError::UnsupportedMethod)
        }
    }
}

} // verus!
