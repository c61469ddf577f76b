//! The reference-source client's verified half. The reference source
//! answers a GET with a bare JSON integer — the presumed-correct current
//! chain height. Issuing the GET stays with the transport code; decoding
//! the body is done and proved here.

use vstd::prelude::*;

use crate::config::Config;

verus! {

/// JSON insignificant whitespace.
pub open spec fn is_json_ws(b: u8) -> bool {
    b == 0x20 || b == 0x09 || b == 0x0a || b == 0x0d
}

pub open spec fn is_digit(b: u8) -> bool {
    0x30 <= b <= 0x39
}

pub open spec fn all_digits(s: Seq<u8>) -> bool {
    forall|i: int| 0 <= i < s.len() ==> is_digit(#[trigger] s[i])
}

/// `s` without its leading JSON whitespace.
pub open spec fn skip_leading_ws(s: Seq<u8>) -> Seq<u8>
    decreases s.len(),
{
    if s.len() > 0 && is_json_ws(s[0]) {
        skip_leading_ws(s.drop_first())
    } else {
        s
    }
}

/// `s` without its trailing JSON whitespace.
pub open spec fn skip_trailing_ws(s: Seq<u8>) -> Seq<u8>
    decreases s.len(),
{
    if s.len() > 0 && is_json_ws(s.last()) {
        skip_trailing_ws(s.drop_last())
    } else {
        s
    }
}

/// The number written by a digit string, most significant digit first.
pub open spec fn digits_val(s: Seq<u8>) -> int
    decreases s.len(),
{
    if s.len() == 0 {
        0
    } else {
        digits_val(s.drop_last()) * 10 + (s.last() - 0x30)
    }
}

/// What a response body from the reference source means: a bare JSON
/// integer that fits a `u64` — optional whitespace around a nonempty
/// digit string with no superfluous leading zero — or nothing.
pub open spec fn spec_block_count(s: Seq<u8>) -> Option<int> {
    let t = skip_trailing_ws(skip_leading_ws(s));
    if t.len() > 0 && all_digits(t) && (t[0] != 0x30 || t.len() == 1) && digits_val(t)
        <= u64::MAX {
        Some(digits_val(t))
    } else {
        None
    }
}

proof fn lemma_digits_val_nonneg(s: Seq<u8>)
    requires
        all_digits(s),
    ensures
        digits_val(s) >= 0,
    decreases s.len(),
{
    if s.len() > 0 {
        assert(all_digits(s.drop_last())) by {
            assert(forall|i: int|
                0 <= i < s.len() - 1 ==> #[trigger] s.drop_last()[i] == s[i]);
        }
        lemma_digits_val_nonneg(s.drop_last());
    }
}

/// Reading more digits never shrinks the value.
proof fn lemma_digits_val_prefix_le(s: Seq<u8>, j: int)
    requires
        all_digits(s),
        0 <= j <= s.len(),
    ensures
        digits_val(s.take(j)) <= digits_val(s),
    decreases s.len() - j,
{
    if j < s.len() {
        assert(all_digits(s.take(j + 1))) by {
            assert(forall|i: int|
                0 <= i < j + 1 ==> #[trigger] s.take(j + 1)[i] == s[i]);
        }
        assert(s.take(j + 1).drop_last() =~= s.take(j));
        lemma_digits_val_nonneg(s.take(j));
        assert(digits_val(s.take(j)) <= digits_val(s.take(j + 1)));
        lemma_digits_val_prefix_le(s, j + 1);
    } else {
        assert(s.take(j) =~= s);
    }
}

/// A whitespace prefix is exactly what `skip_leading_ws` drops.
proof fn lemma_skip_leading_ws(s: Seq<u8>, a: int)
    requires
        0 <= a <= s.len(),
        forall|j: int| 0 <= j < a ==> is_json_ws(#[trigger] s[j]),
        a == s.len() || !is_json_ws(s[a]),
    ensures
        skip_leading_ws(s) == s.skip(a),
    decreases a,
{
    if a == 0 {
        assert(s.skip(0) =~= s);
    } else {
        assert(s.drop_first() =~= s.skip(1));
        assert(forall|j: int|
            0 <= j < a - 1 ==> #[trigger] s.skip(1)[j] == s[j + 1]);
        lemma_skip_leading_ws(s.skip(1), a - 1);
        assert(s.skip(1).skip(a - 1) =~= s.skip(a));
    }
}

/// A whitespace suffix is exactly what `skip_trailing_ws` drops.
proof fn lemma_skip_trailing_ws(s: Seq<u8>, b: int)
    requires
        0 <= b <= s.len(),
        forall|j: int| b <= j < s.len() ==> is_json_ws(#[trigger] s[j]),
        b == 0 || !is_json_ws(s[b - 1]),
    ensures
        skip_trailing_ws(s) == s.take(b),
    decreases s.len() - b,
{
    if b == s.len() {
        assert(s.take(b) =~= s);
    } else {
        assert(s.drop_last() =~= s.take(s.len() - 1));
        assert(forall|j: int|
            b <= j < s.len() - 1 ==> #[trigger] s.take(s.len() - 1)[j] == s[j]);
        lemma_skip_trailing_ws(s.take(s.len() - 1), b);
        assert(s.take(s.len() - 1).take(b) =~= s.take(b));
    }
}

/// Decodes the reference source's response body: `Some` exactly when the
/// body is a bare JSON integer that fits a `u64`, and then its value.
pub fn parse_block_count(body: &[u8]) -> (r: Option<u64>)
    ensures
        match r {
            Some(v) => spec_block_count(body@) == Some(v as int),
            None => spec_block_count(body@) is None,
        },
{
    let n = body.len();
    let mut a: usize = 0;
    while a < n && is_ws(body[a])
        invariant
            n == body@.len(),
            a <= n,
            forall|j: int| 0 <= j < a ==> is_json_ws(#[trigger] body@[j]),
        decreases n - a,
    {
        a += 1;
    }
    let mut b: usize = n;
    while b > a && is_ws(body[b - 1])
        invariant
            n == body@.len(),
            a <= b <= n,
            forall|j: int| b <= j < n ==> is_json_ws(#[trigger] body@[j]),
        decreases b,
    {
        b -= 1;
    }
    proof {
        lemma_skip_leading_ws(body@, a as int);
        if b == a {
            // Everything was whitespace: the trimmed body is empty.
            assert(forall|j: int|
                0 <= j < body@.skip(a as int).len() ==> is_json_ws(
                    #[trigger] body@.skip(a as int)[j],
                ));
            lemma_skip_trailing_ws(body@.skip(a as int), 0);
            assert(body@.skip(a as int).take(0) =~= Seq::<u8>::empty());
        } else {
            assert(forall|j: int|
                (b - a) <= j < body@.skip(a as int).len() ==> is_json_ws(
                    #[trigger] body@.skip(a as int)[j],
                ));
            lemma_skip_trailing_ws(body@.skip(a as int), b - a);
        }
    }
    let ghost t = body@.skip(a as int).take(b - a);
    proof {
        assert(t =~= body@.subrange(a as int, b as int));
        assert(skip_trailing_ws(skip_leading_ws(body@)) == t);
    }
    if b == a {
        return None;
    }
    if body[a] == 0x30 && b - a > 1 {
        return None;
    }
    let mut v: u64 = 0;
    let mut i: usize = a;
    proof {
        assert(t.take(0) =~= Seq::<u8>::empty());
    }
    while i < b
        invariant
            n == body@.len(),
            a <= i <= b <= n,
            t == body@.subrange(a as int, b as int),
            t == skip_trailing_ws(skip_leading_ws(body@)),
            forall|j: int| a <= j < i ==> is_digit(#[trigger] body@[j]),
            v == digits_val(t.take(i - a)),
        decreases b - i,
    {
        let c = body[i];
        if c < 0x30 || c > 0x39 {
            proof {
                assert(t[i - a] == body@[i as int]);
                assert(!is_digit(t[i - a]));
            }
            return None;
        }
        let d = (c - 0x30) as u64;
        proof {
            assert(t.take(i - a + 1).drop_last() =~= t.take(i - a));
            assert(t.take(i - a + 1).last() == body@[i as int]);
            assert(digits_val(t.take(i - a + 1)) == v * 10 + d);
        }
        if v > (u64::MAX - d) / 10 {
            // The digits read so far already outgrow u64; more digits
            // can only grow the value further.
            proof {
                assert(v * 10 + d > u64::MAX) by (nonlinear_arith)
                    requires
                        v > (u64::MAX - d) / 10,
                        d <= 9,
                ;
                if all_digits(t) && t.len() > 0 && (t[0] != 0x30 || t.len() == 1) {
                    lemma_digits_val_prefix_le(t, i - a + 1);
                    assert(digits_val(t) > u64::MAX);
                }
            }
            return None;
        }
        proof {
            assert(v * 10 + d <= u64::MAX) by (nonlinear_arith)
                requires
                    v <= (u64::MAX - d) / 10,
                    d <= 9,
            ;
        }
        v = v * 10 + d;
        i += 1;
    }
    proof {
        assert(t.take(b - a) =~= t);
        assert(forall|j: int| 0 <= j < t.len() ==> #[trigger] t[j] == body@[a + j]);
        assert(all_digits(t));
        assert(t[0] == body@[a as int]);
    }
    Some(v)
}

fn is_ws(b: u8) -> (r: bool)
    ensures
        r == is_json_ws(b),
{
    b == 0x20 || b == 0x09 || b == 0x0a || b == 0x0d
}

/// Client for the reference height source.
pub struct BlockchainInfoClientImpl {
    pub url: String,
}

impl BlockchainInfoClientImpl {
    pub fn new(config: &Config) -> (r: Self)
        ensures
            r.url@ == config.healthcheck.url@,
    {
        Self { url: config.healthcheck.url.clone() }
    }
}

} // verus!
