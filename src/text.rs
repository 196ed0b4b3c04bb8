//! Text building blocks: decimal numbers and query strings.

use vstd::prelude::*;

use crate::foreign::append_query_pair;
use crate::foreign::form_encoded;

verus! {

/// Whether two strings hold the same characters.
pub fn same_text(a: &str, b: &str) -> (r: bool)
    ensures
        r == (a@ == b@),
{
    let n = a.unicode_len();
    if n != b.unicode_len() {
        return false;
    }
    let mut i: usize = 0;
    while i < n
        invariant
            n == a@.len() == b@.len(),
            i <= n,
            forall|j: int| 0 <= j < i ==> a@[j] == b@[j],
        decreases n - i,
    {
        if a.get_char(i) != b.get_char(i) {
            return false;
        }
        i = i + 1;
    }
    assert(a@ =~= b@);
    true
}


/// The character of a decimal digit.
pub open spec fn digit_char(d: nat) -> char {
    seq!['0', '1', '2', '3', '4', '5', '6', '7', '8', '9'][d as int]
}

/// The decimal representation of `n`, without leading zeros.
pub open spec fn decimal(n: nat) -> Seq<char>
    decreases n,
{
    if n < 10 {
        seq![digit_char(n)]
    } else {
        decimal(n / 10).push(digit_char(n % 10))
    }
}

/// The decimal representation of `n`, padded with leading zeros to
/// `width` characters.
pub open spec fn padded(n: nat, width: nat) -> Seq<char> {
    if decimal(n).len() >= width {
        decimal(n)
    } else {
        Seq::new((width - decimal(n).len()) as nat, |i: int| '0') + decimal(n)
    }
}

/// The digit `d` as a one-character string.
fn digit(d: u64) -> (r: &'static str)
    requires
        d < 10,
    ensures
        r@ == seq![digit_char(d as nat)],
{
    proof {
        reveal_strlit("0");
        reveal_strlit("1");
        reveal_strlit("2");
        reveal_strlit("3");
        reveal_strlit("4");
        reveal_strlit("5");
        reveal_strlit("6");
        reveal_strlit("7");
        reveal_strlit("8");
        reveal_strlit("9");
    }
    let r = match d {
        0 => "0",
        1 => "1",
        2 => "2",
        3 => "3",
        4 => "4",
        5 => "5",
        6 => "6",
        7 => "7",
        8 => "8",
        _ => "9",
    };
    assert(r@ =~= seq![digit_char(d as nat)]);
    r
}

/// The decimal representation of `n`.
pub fn decimal_string(n: u64) -> (r: String)
    ensures
        r@ == decimal(n as nat),
    decreases n,
{
    if n < 10 {
        String::from_str(digit(n))
    } else {
        let r = decimal_string(n / 10).concat(digit(n % 10));
        assert(r@ =~= decimal(n as nat));
        r
    }
}

/// The decimal representation of `n`, padded with zeros to `width`
/// characters.
pub fn padded_string(n: u64, width: usize) -> (r: String)
    ensures
        r@ == padded(n as nat, width as nat),
{
    let digits = decimal_string(n);
    let len = digits.as_str().unicode_len();
    if len >= width {
        return digits;
    }
    let mut zeros = String::new();
    let mut i: usize = 0;
    while i < width - len
        invariant
            i <= width - len,
            zeros@ == Seq::new(i as nat, |j: int| '0'),
        decreases width - len - i,
    {
        proof {
            reveal_strlit("0");
        }
        zeros = zeros.concat("0");
        assert(zeros@ =~= Seq::new((i + 1) as nat, |j: int| '0'));
        i = i + 1;
    }
    zeros.concat(digits.as_str())
}

/// A query string parameter `name=value`, form encoded.
pub open spec fn query_pair(name: Seq<char>, value: Seq<char>) -> Seq<char> {
    form_encoded(name) + seq!['='] + form_encoded(value)
}

/// The query string `query` with the parameter `name=value` appended,
/// separated by `&` from what it holds already.
pub open spec fn appended(query: Seq<char>, name: Seq<char>, value: Seq<char>) -> Seq<char> {
    if query.len() == 0 {
        query_pair(name, value)
    } else {
        query + seq!['&'] + query_pair(name, value)
    }
}

/// Append the parameter `name=value` to the query string `query`,
/// separated by `&` from what it holds already.
pub fn append_pair(query: String, name: &str, value: &str) -> (r: String)
    ensures
        r@ == appended(query@, name@, value@),
{
    let ghost q = query@;
    let r = append_query_pair(query, name, value);
    assert(r@ =~= appended(q, name@, value@));
    r
}

} // verus!
