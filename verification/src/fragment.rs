//! Query-string fragments: the decimal rendering of numeric arguments, the
//! clamping rule for `limit` arguments, the semicolon joining of repeatable
//! tag arguments, and the space encoding applied to free-text arguments.

use vstd::prelude::*;
use vstd::string::*;

verus! {

/// The character for one decimal digit.
pub open spec fn digit_char(d: nat) -> char {
    if d == 0 {
        '0'
    } else if d == 1 {
        '1'
    } else if d == 2 {
        '2'
    } else if d == 3 {
        '3'
    } else if d == 4 {
        '4'
    } else if d == 5 {
        '5'
    } else if d == 6 {
        '6'
    } else if d == 7 {
        '7'
    } else if d == 8 {
        '8'
    } else {
        '9'
    }
}

/// The decimal rendering of `n`, most significant digit first, no sign and no
/// leading zeros (`0` renders as `"0"`).
pub open spec fn spec_decimal(n: nat) -> Seq<char>
    decreases n,
{
    if n < 10 {
        seq![digit_char(n)]
    } else {
        spec_decimal(n / 10) + seq![digit_char(n % 10)]
    }
}

/// A `limit` argument above the endpoint's ceiling is silently lowered to the
/// ceiling; at or below the ceiling it passes through unchanged.
pub open spec fn clamped(v: nat, ceiling: nat) -> nat {
    if v > ceiling {
        ceiling
    } else {
        v
    }
}

/// The fragment a `limit` setter appends for the requested value `v` on a
/// builder whose ceiling is `ceiling`.
pub open spec fn limit_fragment(v: nat, ceiling: nat) -> Seq<char> {
    "&limit="@ + spec_decimal(clamped(v, ceiling))
}

/// One step of building a semicolon-joined list: the first item starts the
/// list, every later item is preceded by a separator.
pub open spec fn joined_with(acc: Seq<char>, item: Seq<char>) -> Seq<char> {
    if acc.len() == 0 {
        item
    } else {
        acc + ";"@ + item
    }
}

/// One step of building a comma-joined list: the first item starts the list,
/// every later item is preceded by a separator.
pub open spec fn comma_joined_with(acc: Seq<char>, item: Seq<char>) -> Seq<char> {
    if acc.len() == 0 {
        item
    } else {
        acc + ","@ + item
    }
}

/// How one character is encoded in a free-text query argument: spaces become
/// `%20`, everything else passes through.
pub open spec fn encoded_char(c: char) -> Seq<char> {
    if c == ' ' {
        "%20"@
    } else {
        seq![c]
    }
}

/// The space encoding of a whole string.
pub open spec fn spec_encode_spaces(s: Seq<char>) -> Seq<char>
    decreases s.len(),
{
    if s.len() == 0 {
        Seq::<char>::empty()
    } else {
        spec_encode_spaces(s.drop_last()) + encoded_char(s.last())
    }
}

/// A builder's accumulated fragment is a pure append log: running setter `A`
/// and then setter `B` leaves the same fragment as appending, in call order,
/// what each setter appends on its own.
pub proof fn lemma_fragment_append_log(s: Seq<char>, a: Seq<char>, b: Seq<char>)
    ensures
        (s + a) + b == s + (a + b),
{
    assert((s + a) + b =~= s + (a + b));
}

/// A parameter whose chosen value appends the empty fragment leaves the
/// accumulated fragment untouched, so selecting a default enumeration value
/// is indistinguishable from never calling the setter.
pub proof fn lemma_empty_fragment_is_silent(s: Seq<char>)
    ensures
        s + Seq::<char>::empty() == s,
{
    assert(s + Seq::<char>::empty() =~= s);
}

/// A `limit` request above the ceiling appends exactly the fragment that a
/// request of the ceiling itself appends.
pub proof fn lemma_limit_clamp(v: nat, ceiling: nat)
    requires
        v >= ceiling,
    ensures
        limit_fragment(v, ceiling) == limit_fragment(ceiling, ceiling),
{
}

/// Two repeatable values added to an empty accumulator come out in call
/// order, joined by one semicolon, with no leading or trailing separator.
pub proof fn lemma_join_two(t1: Seq<char>, t2: Seq<char>)
    requires
        t1.len() > 0,
    ensures
        joined_with(joined_with(Seq::<char>::empty(), t1), t2) == t1 + ";"@ + t2,
{
}

/// The decimal rendering of one digit.
fn digit_string(d: usize) -> (s: &'static str)
    requires
        d < 10,
    ensures
        s@ == seq![digit_char(d as nat)],
{
    proof {
        reveal_strlit("0");
        reveal_strlit("1");
        reveal_strlit("2");
        reveal_strlit("3");
        reveal_strlit("4");
        reveal_strlit("5");
        reveal_strlit("6");
        reveal_strlit("7");
        reveal_strlit("8");
        reveal_strlit("9");
    }
    let s = match d {
        0 => "0",
        1 => "1",
        2 => "2",
        3 => "3",
        4 => "4",
        5 => "5",
        6 => "6",
        7 => "7",
        8 => "8",
        _ => "9",
    };
    proof {
        assert(s@ =~= seq![digit_char(d as nat)]);
    }
    s
}

/// Renders `n` in decimal, as `format!("{}", n)` would.
pub fn decimal_string_u64(n: u64) -> (s: String)
    ensures
        s@ == spec_decimal(n as nat),
    decreases n,
{
    if n < 10 {
        String::from_str(digit_string((n % 10) as usize))
    } else {
        let mut s = decimal_string_u64(n / 10);
        s.append(digit_string((n % 10) as usize));
        s
    }
}

/// Renders `n` in decimal, as `format!("{}", n)` would.
pub fn decimal_string(n: usize) -> (s: String)
    ensures
        s@ == spec_decimal(n as nat),
{
    decimal_string_u64(n as u64)
}

/// Replaces every space with `%20`, as the free-text setters require.
pub fn encode_spaces(s: &str) -> (r: String)
    ensures
        r@ == spec_encode_spaces(s@),
{
    let n = s.unicode_len();
    let mut out = String::new();
    let mut i: usize = 0;
    while i < n
        invariant
            i <= n,
            n == s@.len(),
            out@ == spec_encode_spaces(s@.take(i as int)),
        decreases n - i,
    {
        let c = s.get_char(i);
        if c == ' ' {
            out.append("%20");
        } else {
            out.append(s.substring_char(i, i + 1));
        }
        proof {
            let pre = s@.take(i as int);
            let cur = s@.take(i + 1 as int);
            assert(cur.drop_last() =~= pre);
            assert(cur.last() == s@[i as int]);
            assert(s@.subrange(i as int, i + 1 as int) =~= seq![s@[i as int]]);
        }
        i = i + 1;
    }
    proof {
        assert(s@.take(n as int) =~= s@);
    }
    out
}

} // verus!
