//! The character set and the random solution text.
use rand::Rng;
use vstd::prelude::*;

verus! {

/// The default alphabet: digits and letters without the easily confused
/// `0`, `O`, `I`, `L` and `1` (lower-case `i`, `l` and `o` are left out too).
pub const BASIC_CHAR: [char; 54] = [
    '2', '3', '4', '5', '6', '7', '8', '9', 'A', 'B', 'C', 'D', 'E', 'F', 'G', 'H', 'J', 'K', 'M',
    'N', 'P', 'Q', 'R', 'S', 'T', 'U', 'V', 'W', 'X', 'Y', 'Z', 'a', 'b', 'c', 'd', 'e', 'f', 'g',
    'h', 'j', 'k', 'm', 'n', 'p', 'q', 'r', 's', 't', 'u', 'v', 'w', 'x', 'y', 'z',
];

/// Smallest and largest length of a generated solution.
pub const MIN_LENGTH: usize = 1;
pub const MAX_LENGTH: usize = 16;

/// The length that a requested length resolves to.
pub open spec fn resolved_length(length: int) -> int {
    if length < MIN_LENGTH { MIN_LENGTH as int } else if length > MAX_LENGTH { MAX_LENGTH as int } else { length }
}

/// Every character of `s` is one of `set`.
pub open spec fn drawn_from(s: Seq<char>, set: Seq<char>) -> bool {
    forall|i: int| 0 <= i < s.len() ==> set.contains(#[trigger] s[i])
}

/// Relies on rand's `random_range` over the thread-local generator: a
/// uniform draw from `0..=num`, which is never empty.
#[verifier::external_body]
pub fn get_rnd(num: usize) -> (r: usize)
    ensures
        r <= num,
{
    rand::rng().random_range(0..=num)
}

/// Relies on std's `FromIterator<char>` for `String`: the characters in order.
#[verifier::external_body]
fn string_from_chars(chars: &Vec<char>) -> (r: String)
    ensures
        r@ == chars@,
{
    chars.iter().collect()
}

/// Relies on std's `ToString` for `char`: a string of that one character.
#[verifier::external_body]
fn char_to_string(c: char) -> (r: String)
    ensures
        r@ == seq![c],
{
    c.to_string()
}

/// Symbols drawn independently from the default alphabet, each as a string
/// of one character: `num` of them, held to 1..=16.
pub fn get_captcha(num: usize) -> (res: Vec<String>)
    ensures
        res@.len() == resolved_length(num as int),
        forall|i: int| 0 <= i < res@.len() ==> (#[trigger] res@[i])@.len() == 1 && BASIC_CHAR@.contains(res@[i]@[0]),
{
    let n: usize = if num < MIN_LENGTH { MIN_LENGTH } else if num > MAX_LENGTH { MAX_LENGTH } else { num };
    let mut res: Vec<String> = Vec::new();
    let mut k: usize = 0;
    while k < n
        invariant
            k <= n,
            res@.len() == k,
            forall|i: int| 0 <= i < k ==> (#[trigger] res@[i])@.len() == 1 && BASIC_CHAR@.contains(res@[i]@[0]),
        decreases n - k,
    {
        let rnd = get_rnd(53);
        let c = BASIC_CHAR[rnd];
        let s = char_to_string(c);
        assert(BASIC_CHAR@[rnd as int] == c);
        res.push(s);
        k += 1;
    }
    res
}

/// A solution of `length` symbols (at least one, at most sixteen), each
/// drawn independently and uniformly from `set`, repeats allowed.
pub fn generate(set: &Vec<char>, length: usize) -> (r: String)
    requires
        set@.len() > 0,
    ensures
        r@.len() == resolved_length(length as int),
        drawn_from(r@, set@),
{
    let n: usize = if length < MIN_LENGTH { MIN_LENGTH } else if length > MAX_LENGTH { MAX_LENGTH } else { length };
    let mut chars: Vec<char> = Vec::new();
    let mut k: usize = 0;
    while k < n
        invariant
            k <= n,
            n == resolved_length(length as int),
            set@.len() > 0,
            chars@.len() == k,
            drawn_from(chars@, set@),
        decreases n - k,
    {
        let rnd = get_rnd(set.len() - 1);
        let c = set[rnd];
        assert(set@[rnd as int] == c);
        chars.push(c);
        k += 1;
    }
    string_from_chars(&chars)
}

} // verus!
