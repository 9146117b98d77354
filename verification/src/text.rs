//! Small verified text helpers the request builders need: decimal
//! rendering of integers and comma-joining of string lists.
use vstd::prelude::*;
use vstd::string::StringExecFns;
use vstd::string::StrSliceExecFns;

verus! {

/// Decimal digit character for `d` in `0..10`.
pub open spec fn digit(d: int) -> char {
    seq!['0', '1', '2', '3', '4', '5', '6', '7', '8', '9'][d]
}

/// Decimal rendering of a natural number, no sign, no leading zeros
/// (a single `0` for zero).
pub open spec fn dec_nat(n: nat) -> Seq<char>
    decreases n,
{
    if n < 10 {
        seq![digit(n as int)]
    } else {
        dec_nat(n / 10) + seq![digit((n % 10) as int)]
    }
}

/// Decimal rendering of an integer: a leading `-` for negatives.
pub open spec fn dec_int(n: int) -> Seq<char> {
    if n < 0 {
        seq!['-'] + dec_nat((-n) as nat)
    } else {
        dec_nat(n as nat)
    }
}

/// One-character string for a decimal digit.
fn digit_string(d: u64) -> (s: String)
    requires
        d < 10,
    ensures
        s@ == seq![digit(d as int)],
{
    let s = match d {
        0 => String::from_str("0"),
        1 => String::from_str("1"),
        2 => String::from_str("2"),
        3 => String::from_str("3"),
        4 => String::from_str("4"),
        5 => String::from_str("5"),
        6 => String::from_str("6"),
        7 => String::from_str("7"),
        8 => String::from_str("8"),
        _ => String::from_str("9"),
    };
    proof {
        reveal_strlit("0");
        reveal_strlit("1");
        reveal_strlit("2");
        reveal_strlit("3");
        reveal_strlit("4");
        reveal_strlit("5");
        reveal_strlit("6");
        reveal_strlit("7");
        reveal_strlit("8");
        reveal_strlit("9");
        assert(s@ =~= seq![digit(d as int)]);
    }
    s
}

/// Render an unsigned number in decimal.
pub fn fmt_u64(n: u64) -> (s: String)
    ensures
        s@ == dec_nat(n as nat),
    decreases n,
{
    if n < 10 {
        digit_string(n)
    } else {
        let mut s = fmt_u64(n / 10);
        let d = digit_string(n % 10);
        s.append(d.as_str());
        s
    }
}

/// Render a `usize` in decimal.
pub fn fmt_usize(n: usize) -> (s: String)
    ensures
        s@ == dec_nat(n as nat),
{
    fmt_u64(n as u64)
}

/// Render an `i32` in decimal, with a leading `-` for negatives.
pub fn fmt_i32(n: i32) -> (s: String)
    ensures
        s@ == dec_int(n as int),
{
    if n >= 0 {
        fmt_u64(n as u64)
    } else {
        let mut s = String::from_str("-");
        let magnitude: i64 = -(n as i64);
        let d = fmt_u64(magnitude as u64);
        s.append(d.as_str());
        proof {
            reveal_strlit("-");
            assert(s@ =~= dec_int(n as int));
        }
        s
    }
}

/// The query key under which a listing names the related resources to
/// embed in each record: the API spells it without the final letter of
/// the `included` option's field name.
pub open spec fn embed_key() -> Seq<char> {
    seq!['i', 'n', 'c', 'l', 'u', 'd', 'e']
}

/// Render [`embed_key`] as the string sent on the wire.
pub fn embed_key_string() -> (s: String)
    ensures
        s@ == embed_key(),
{
    let mut s = String::from_str("inc");
    s.append("lude");
    proof {
        reveal_strlit("inc");
        reveal_strlit("lude");
        assert(s@ =~= embed_key());
    }
    s
}

/// The wire rendering of a boolean.
pub open spec fn spec_bool_str(b: bool) -> Seq<char> {
    if b {
        "true"@
    } else {
        "false"@
    }
}

/// Render a boolean as its wire name.
pub fn bool_str(b: bool) -> (s: &'static str)
    ensures
        s@ == spec_bool_str(b),
{
    if b {
        "true"
    } else {
        "false"
    }
}

/// The strings joined with a single comma between neighbours.
pub open spec fn joined_with_commas(ss: Seq<Seq<char>>) -> Seq<char>
    decreases ss.len(),
{
    if ss.len() == 0 {
        Seq::empty()
    } else if ss.len() == 1 {
        ss[0]
    } else {
        ss[0] + seq![','] + joined_with_commas(ss.drop_first())
    }
}

proof fn lemma_joined_push(ss: Seq<Seq<char>>, x: Seq<char>)
    ensures
        joined_with_commas(ss.push(x)) == if ss.len() == 0 {
            x
        } else {
            joined_with_commas(ss) + seq![','] + x
        },
    decreases ss.len(),
{
    if ss.len() == 0 {
        assert(ss.push(x)[0] == x);
    } else {
        assert(ss.push(x).drop_first() =~= ss.drop_first().push(x));
        lemma_joined_push(ss.drop_first(), x);
        assert(joined_with_commas(ss.push(x)) =~= joined_with_commas(ss) + seq![','] + x);
    }
}

/// Join the strings with commas, as the wire's comma-separated field
/// lists expect.
pub fn join_commas(parts: &Vec<String>) -> (s: String)
    ensures
        s@ == joined_with_commas(parts.deep_view()),
{
    let mut s = String::new();
    let mut i: usize = 0;
    while i < parts.len()
        invariant
            i <= parts.len(),
            s@ == joined_with_commas(parts.deep_view().take(i as int)),
        decreases parts.len() - i,
    {
        if i > 0 {
            s.append(",");
        }
        s.append(parts[i].as_str());
        proof {
            reveal_strlit(",");
            let prefix = parts.deep_view().take(i as int);
            lemma_joined_push(prefix, parts.deep_view()[i as int]);
            assert(parts.deep_view().take(i as int + 1) =~= prefix.push(
                parts.deep_view()[i as int],
            ));
            assert(","@ =~= seq![',']);
        }
        i = i + 1;
    }
    proof {
        assert(parts.deep_view().take(parts.len() as int) =~= parts.deep_view());
    }
    s
}

} // verus!
