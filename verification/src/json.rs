//! Byte-level JSON framing: the proxy builds its upstream JSON-RPC and
//! alert payloads itself, so string values must be embedded with the
//! JSON escaping rules (quote, backslash, and control characters).

use vstd::prelude::*;

verus! {

/// The lower-case hex digit for a value below 16.
pub open spec fn spec_hex_digit(n: u8) -> u8 {
    if n < 10 {
        (0x30 + n) as u8
    } else {
        (0x57 + n) as u8
    }
}

/// How one byte of a string value appears inside a JSON string literal:
/// quote and backslash get a backslash escape, control bytes become a
/// `\u00XX` escape, and every other byte stands as it is.
pub open spec fn spec_json_escaped_byte(b: u8) -> Seq<u8> {
    if b == 0x22 {
        seq![0x5cu8, 0x22u8]
    } else if b == 0x5c {
        seq![0x5cu8, 0x5cu8]
    } else if b < 0x20 {
        seq![0x5cu8, 0x75u8, 0x30u8, 0x30u8, spec_hex_digit(b / 16), spec_hex_digit(b % 16)]
    } else {
        seq![b]
    }
}

/// A whole string value after JSON escaping.
pub open spec fn spec_json_escaped(s: Seq<u8>) -> Seq<u8>
    decreases s.len(),
{
    if s.len() == 0 {
        Seq::empty()
    } else {
        spec_json_escaped_byte(s[0]) + spec_json_escaped(s.drop_first())
    }
}

/// A JSON string literal: the escaped value between double quotes.
pub open spec fn spec_json_string(s: Seq<u8>) -> Seq<u8> {
    seq![0x22u8] + spec_json_escaped(s) + seq![0x22u8]
}

fn hex_digit(n: u8) -> (r: u8)
    requires
        n < 16,
    ensures
        r == spec_hex_digit(n),
{
    if n < 10 {
        0x30 + n
    } else {
        0x57 + n
    }
}

/// Appends `src` to `out` unchanged.
pub fn append_bytes(out: &mut Vec<u8>, src: &[u8])
    ensures
        final(out)@ == old(out)@ + src@,
{
    let n = src.len();
    let mut i: usize = 0;
    while i < n
        invariant
            n == src@.len(),
            i <= n,
            out@ == old(out)@ + src@.take(i as int),
        decreases n - i,
    {
        out.push(src[i]);
        proof {
            assert(old(out)@ + src@.take(i + 1 as int) =~= (old(out)@ + src@.take(i as int)).push(
                src@[i as int],
            ));
        }
        i += 1;
    }
    proof {
        assert(old(out)@ + src@.take(n as int) =~= old(out)@ + src@);
    }
}

/// Appends `src` to `out` with JSON escaping applied.
pub fn append_json_escaped(out: &mut Vec<u8>, src: &[u8])
    ensures
        final(out)@ == old(out)@ + spec_json_escaped(src@),
{
    let n = src.len();
    let mut i: usize = 0;
    proof {
        assert(src@.skip(0) =~= src@);
    }
    while i < n
        invariant
            n == src@.len(),
            i <= n,
            out@ + spec_json_escaped(src@.skip(i as int)) == old(out)@ + spec_json_escaped(src@),
        decreases n - i,
    {
        let ghost pre = out@;
        let b = src[i];
        proof {
            assert(src@.skip(i as int).drop_first() =~= src@.skip(i + 1));
            assert(spec_json_escaped(src@.skip(i as int)) == spec_json_escaped_byte(b)
                + spec_json_escaped(src@.skip(i + 1)));
        }
        if b == 0x22 {
            out.push(0x5c);
            out.push(0x22);
        } else if b == 0x5c {
            out.push(0x5c);
            out.push(0x5c);
        } else if b < 0x20 {
            out.push(0x5c);
            out.push(0x75);
            out.push(0x30);
            out.push(0x30);
            out.push(hex_digit(b / 16));
            out.push(hex_digit(b % 16));
        } else {
            out.push(b);
        }
        proof {
            assert(out@ =~= pre + spec_json_escaped_byte(b));
            assert(out@ + spec_json_escaped(src@.skip(i + 1)) =~= pre + spec_json_escaped(
                src@.skip(i as int),
            ));
        }
        i += 1;
    }
    proof {
        assert(spec_json_escaped(src@.skip(n as int)) =~= Seq::<u8>::empty());
        assert(out@ + spec_json_escaped(src@.skip(n as int)) =~= out@);
    }
}

/// Appends `src` to `out` as a JSON string literal.
pub fn append_json_string(out: &mut Vec<u8>, src: &[u8])
    ensures
        final(out)@ == old(out)@ + spec_json_string(src@),
{
    out.push(0x22);
    append_json_escaped(out, src);
    out.push(0x22);
    proof {
        assert(out@ =~= old(out)@ + spec_json_string(src@));
    }
}

} // verus!
