use vstd::prelude::*;
use vstd::string::StringExecFns;

verus! {

/// Chooses between a singular and a plural word form for a count:
/// the singular is used exactly when the count is one.
pub fn pluralize<'a>(singular: &'a str, plural: &'a str, count: usize) -> (r: &'a str)
    ensures
        count == 1 ==> r@ == singular@,
        count != 1 ==> r@ == plural@,
{
    match count {
        1 => singular,
        _ => plural,
    }
}

/// The character for one decimal digit.
pub open spec fn spec_digit_char(d: nat) -> char
    recommends
        d < 10,
{
    if d == 0 {
        '0'
    } else if d == 1 {
        '1'
    } else if d == 2 {
        '2'
    } else if d == 3 {
        '3'
    } else if d == 4 {
        '4'
    } else if d == 5 {
        '5'
    } else if d == 6 {
        '6'
    } else if d == 7 {
        '7'
    } else if d == 8 {
        '8'
    } else {
        '9'
    }
}

/// Decimal rendering of a natural number, most significant digit first,
/// without leading zeros (zero itself renders as "0").
pub open spec fn spec_decimal(n: nat) -> Seq<char>
    decreases n,
{
    if n < 10 {
        seq![spec_digit_char(n)]
    } else {
        spec_decimal(n / 10) + seq![spec_digit_char(n % 10)]
    }
}

fn digit_str(d: u64) -> (r: &'static str)
    requires
        d < 10,
    ensures
        r@ == seq![spec_digit_char(d as nat)],
{
    let r: &'static str = match d {
        0 => "0",
        1 => "1",
        2 => "2",
        3 => "3",
        4 => "4",
        5 => "5",
        6 => "6",
        7 => "7",
        8 => "8",
        _ => "9",
    };
    proof {
        reveal_strlit("0");
        reveal_strlit("1");
        reveal_strlit("2");
        reveal_strlit("3");
        reveal_strlit("4");
        reveal_strlit("5");
        reveal_strlit("6");
        reveal_strlit("7");
        reveal_strlit("8");
        reveal_strlit("9");
        assert(r@ =~= seq![spec_digit_char(d as nat)]);
    }
    r
}

/// Renders an identifier or timestamp as decimal text.
pub fn u64_to_string(n: u64) -> (r: String)
    ensures
        r@ == spec_decimal(n as nat),
    decreases n,
{
    if n < 10 {
        digit_str(n).to_owned()
    } else {
        let mut s = u64_to_string(n / 10);
        s.append(digit_str(n % 10));
        s
    }
}

/// Markup for an absolute timestamp, seconds since the epoch.
pub open spec fn spec_timestamp_tag(ts: nat) -> Seq<char> {
    "<t:"@ + spec_decimal(ts) + ">"@
}

/// Markup for a timestamp shown relative to the reader's present.
pub open spec fn spec_relative_tag(ts: nat) -> Seq<char> {
    "<t:"@ + spec_decimal(ts) + ":R>"@
}

pub fn timestamp_tag(ts: u64) -> (r: String)
    ensures
        r@ == spec_timestamp_tag(ts as nat),
{
    let mut s = "<t:".to_owned();
    s.append(u64_to_string(ts).as_str());
    s.append(">");
    s
}

pub fn relative_tag(ts: u64) -> (r: String)
    ensures
        r@ == spec_relative_tag(ts as nat),
{
    let mut s = "<t:".to_owned();
    s.append(u64_to_string(ts).as_str());
    s.append(":R>");
    s
}

/// Copies a list of strings, content for content.
pub fn clone_strings(v: &Vec<String>) -> (r: Vec<String>)
    ensures
        r@ == v@,
{
    let mut r: Vec<String> = Vec::new();
    let mut i: usize = 0;
    while i < v.len()
        invariant
            0 <= i <= v@.len(),
            r@ == v@.take(i as int),
        decreases v@.len() - i,
    {
        r.push(v[i].clone());
        proof {
            assert(r@ =~= v@.take(i + 1));
        }
        i += 1;
    }
    proof {
        assert(v@.take(v@.len() as int) =~= v@);
    }
    r
}

} // verus!
