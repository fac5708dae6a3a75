use vstd::prelude::*;

verus! {

use crate::schema::{LodgeRate, LodgeRateV, LodgeRates};
use crate::text::{push_chars, string_from_chars};

/// The decimal digit character for `d` below ten.
pub open spec fn spec_digit(d: int) -> char {
    ((48 + d) as u8) as char
}

/// The hexadecimal digit character for `d` below sixteen, lower case.
pub open spec fn spec_hex_digit(d: int) -> char {
    if d < 10 {
        spec_digit(d)
    } else {
        ((97 + d - 10) as u8) as char
    }
}

/// The decimal rendering of `n`, most significant digit first, with no
/// leading zero but for zero itself.
pub open spec fn spec_dec(n: nat) -> Seq<char>
    decreases n,
{
    if n < 10 {
        seq![spec_digit(n as int)]
    } else {
        spec_dec(n / 10).push(spec_digit((n % 10) as int))
    }
}

fn push_dec(out: &mut Vec<char>, n: u64)
    ensures
        final(out)@ == old(out)@ + spec_dec(n as nat),
    decreases n,
{
    if n < 10 {
        out.push((48 + n as u8) as char);
        proof {
            assert(out@ =~= old(out)@ + spec_dec(n as nat));
        }
    } else {
        push_dec(out, n / 10);
        out.push((48 + (n % 10) as u8) as char);
        proof {
            assert(out@ =~= old(out)@ + spec_dec(n as nat));
        }
    }
}

fn hex_digit(d: u8) -> (r: char)
    requires
        d < 16,
    ensures
        r == spec_hex_digit(d as int),
{
    if d < 10 {
        (48 + d) as char
    } else {
        (97 + d - 10) as char
    }
}

/// How one character stands inside a JSON string: quotes, backslashes
/// and control characters escaped exactly as serde_json writes them,
/// every other character as itself.
pub open spec fn spec_escape_char(c: char) -> Seq<char> {
    if c == '"' {
        seq!['\\', '"']
    } else if c == '\\' {
        seq!['\\', '\\']
    } else if c == '\x08' {
        seq!['\\', 'b']
    } else if c == '\t' {
        seq!['\\', 't']
    } else if c == '\n' {
        seq!['\\', 'n']
    } else if c == '\x0c' {
        seq!['\\', 'f']
    } else if c == '\r' {
        seq!['\\', 'r']
    } else if (c as u32) < 32 {
        seq!['\\', 'u', '0', '0', spec_hex_digit(c as int / 16), spec_hex_digit(c as int % 16)]
    } else {
        seq![c]
    }
}

/// The escape of every character of `s`, concatenated in order.
pub open spec fn spec_escaped(s: Seq<char>) -> Seq<char>
    decreases s.len(),
{
    if s.len() == 0 {
        Seq::empty()
    } else {
        spec_escaped(s.drop_last()) + spec_escape_char(s.last())
    }
}

fn push_escaped(out: &mut Vec<char>, s: &str)
    ensures
        final(out)@ == old(out)@ + spec_escaped(s@),
{
    let n = s.unicode_len();
    let mut i: usize = 0;
    proof {
        assert(s@.subrange(0, 0) =~= Seq::<char>::empty());
        assert(out@ =~= old(out)@ + spec_escaped(s@.subrange(0, 0)));
    }
    while i < n
        invariant
            i <= n,
            n == s@.len(),
            out@ == old(out)@ + spec_escaped(s@.subrange(0, i as int)),
        decreases n - i,
    {
        let c = s.get_char(i);
        let ghost pre = out@;
        if c == '"' {
            out.push('\\');
            out.push('"');
        } else if c == '\\' {
            out.push('\\');
            out.push('\\');
        } else if c == '\x08' {
            out.push('\\');
            out.push('b');
        } else if c == '\t' {
            out.push('\\');
            out.push('t');
        } else if c == '\n' {
            out.push('\\');
            out.push('n');
        } else if c == '\x0c' {
            out.push('\\');
            out.push('f');
        } else if c == '\r' {
            out.push('\\');
            out.push('r');
        } else if (c as u32) < 32 {
            out.push('\\');
            out.push('u');
            out.push('0');
            out.push('0');
            let u = c as u32;
            out.push(hex_digit((u / 16) as u8));
            out.push(hex_digit((u % 16) as u8));
        } else {
            out.push(c);
        }
        proof {
            assert(out@ =~= pre + spec_escape_char(s@[i as int]));
            assert(s@.subrange(0, i + 1 as int).drop_last() =~= s@.subrange(0, i as int));
            assert(s@.subrange(0, i + 1 as int).last() == s@[i as int]);
            assert(out@ =~= old(out)@ + spec_escaped(s@.subrange(0, i + 1 as int)));
        }
        i += 1;
    }
    proof {
        assert(s@.subrange(0, n as int) =~= s@);
    }
}

/// The JSON rendering of one `LodgeRate`, fields in schema order.
pub open spec fn spec_lodge_rate_json(r: LodgeRateV) -> Seq<char> {
    "{\"accommodation_type\":\""@ + spec_escaped(r.accommodation_type) + "\",\"rate\":"@
        + spec_dec(r.rate as nat) + ",\"num_available\":"@ + spec_dec(r.num_available as nat)
        + "}"@
}

fn push_lodge_rate(out: &mut Vec<char>, r: &LodgeRate)
    ensures
        final(out)@ == old(out)@ + spec_lodge_rate_json(r@),
{
    push_chars(out, "{\"accommodation_type\":\"");
    push_escaped(out, r.accommodation_type.as_str());
    push_chars(out, "\",\"rate\":");
    push_dec(out, r.rate as u64);
    push_chars(out, ",\"num_available\":");
    push_dec(out, r.num_available as u64);
    push_chars(out, "}");
    proof {
        assert(out@ =~= old(out)@ + spec_lodge_rate_json(r@));
    }
}

/// The comma-joined renderings of a rate sequence, in order.
pub open spec fn spec_joined_rates(rs: Seq<LodgeRateV>) -> Seq<char>
    decreases rs.len(),
{
    if rs.len() == 0 {
        Seq::empty()
    } else if rs.len() == 1 {
        spec_lodge_rate_json(rs[0])
    } else {
        spec_joined_rates(rs.drop_last()) + seq![','] + spec_lodge_rate_json(rs.last())
    }
}

/// The JSON body for the whole payload: an object holding the rate list
/// under `rates`.
pub open spec fn spec_lodge_rates_json(rs: Seq<LodgeRateV>) -> Seq<char> {
    "{\"rates\":["@ + spec_joined_rates(rs) + "]}"@
}

/// Renders the payload as compact JSON, exactly as the wire body.
pub fn lodge_rates_body(lr: &LodgeRates) -> (r: String)
    ensures
        r@ == spec_lodge_rates_json(lr@),
{
    let mut out: Vec<char> = Vec::new();
    push_chars(&mut out, "{\"rates\":[");
    let n = lr.rates.len();
    let mut i: usize = 0;
    proof {
        assert(lr@.subrange(0, 0) =~= Seq::<LodgeRateV>::empty());
        assert(out@ =~= "{\"rates\":["@ + spec_joined_rates(lr@.subrange(0, 0)));
    }
    while i < n
        invariant
            i <= n,
            n == lr.rates@.len(),
            n == lr@.len(),
            forall|k: int| 0 <= k < n ==> lr@[k] == #[trigger] lr.rates@[k]@,
            out@ == "{\"rates\":["@ + spec_joined_rates(lr@.subrange(0, i as int)),
        decreases n - i,
    {
        let ghost pre = out@;
        if i > 0 {
            push_chars(&mut out, ",");
        }
        push_lodge_rate(&mut out, &lr.rates[i]);
        proof {
            assert(lr@.subrange(0, i + 1 as int).drop_last() =~= lr@.subrange(0, i as int));
            assert(lr@.subrange(0, i + 1 as int).last() == lr@[i as int]);
            if i > 0 {
                reveal_strlit(",");
                assert(","@ =~= seq![',']);
            }
            assert(out@ =~= "{\"rates\":["@ + spec_joined_rates(lr@.subrange(0, i + 1 as int)));
        }
        i += 1;
    }
    push_chars(&mut out, "]}");
    proof {
        assert(lr@.subrange(0, n as int) =~= lr@);
        assert(out@ =~= spec_lodge_rates_json(lr@));
    }
    string_from_chars(&out)
}

} // verus!
