//! Rendering of prices as text and the character rules for symbols and account ids.

use vstd::prelude::*;
use vstd::string::StrSliceExecFns;

verus! {

/// Appends one character.
/// Relies on `String::push`: the string grows by exactly that character.
#[verifier::external_body]
pub(crate) fn push_char(s: &mut String, c: char)
    ensures
        final(s)@ == old(s)@.push(c),
{
    s.push(c)
}

/// An ASCII capital letter.
pub open spec fn is_upper_ascii(c: char) -> bool {
    'A' <= c <= 'Z'
}

/// Relies on `char::to_ascii_lowercase`: `A`-`Z` map to `a`-`z`, every other character is kept.
#[verifier::external_body]
fn lower_ascii_char(c: char) -> (r: char)
    ensures
        is_upper_ascii(c) ==> r as u32 == c as u32 + 32,
        !is_upper_ascii(c) ==> r == c,
{
    c.to_ascii_lowercase()
}

/// Whether a character has the Unicode `White_Space` property.
pub uninterp spec fn white_space(c: char) -> bool;

/// Relies on `char::is_whitespace`: true exactly for characters with the `White_Space` property.
#[verifier::external_body]
fn is_white_space(c: char) -> (r: bool)
    ensures
        r == white_space(c),
{
    c.is_whitespace()
}

/// The ASCII digit of `d < 10`.
pub open spec fn digit_char(d: nat) -> char {
    if d == 0 { '0' }
    else if d == 1 { '1' }
    else if d == 2 { '2' }
    else if d == 3 { '3' }
    else if d == 4 { '4' }
    else if d == 5 { '5' }
    else if d == 6 { '6' }
    else if d == 7 { '7' }
    else if d == 8 { '8' }
    else { '9' }
}

/// The decimal digits of `n`, most significant first, without leading zeros.
pub open spec fn decimal(n: nat) -> Seq<char>
    decreases n,
{
    if n < 10 {
        seq![digit_char(n)]
    } else {
        decimal(n / 10).push(digit_char(n % 10))
    }
}

/// The decimal digits of `n`, left-padded with zeros to at least four.
pub open spec fn decimal_padded4(n: nat) -> Seq<char> {
    let d = decimal(n);
    if d.len() < 4 {
        Seq::new((4 - d.len()) as nat, |i: int| '0') + d
    } else {
        d
    }
}

/// `s` with up to `k` trailing `'0'`s removed, never below one character.
pub open spec fn strip_trailing_zeros(s: Seq<char>, k: nat) -> Seq<char>
    decreases k,
{
    if k == 0 {
        s
    } else if s.len() > 1 && s.last() == '0' {
        strip_trailing_zeros(s.drop_last(), (k - 1) as nat)
    } else {
        s
    }
}

/// `s` without its white-space characters.
pub open spec fn without_white_space(s: Seq<char>) -> Seq<char>
    decreases s.len(),
{
    if s.len() == 0 {
        s
    } else if white_space(s.last()) {
        without_white_space(s.drop_last())
    } else {
        without_white_space(s.drop_last()).push(s.last())
    }
}

/// The code point of `c`.
pub open spec fn code_of(c: char) -> u32 {
    c as u32
}

/// `c` lower-cased if it is `A`-`Z`: the character 32 code points further.
pub open spec fn lower_char(c: char) -> char {
    if is_upper_ascii(c) {
        choose|d: char| #[trigger] code_of(d) == c as u32 + 32
    } else {
        c
    }
}

/// `s` with `A`-`Z` turned into `a`-`z`.
pub open spec fn ascii_lower(s: Seq<char>) -> Seq<char> {
    Seq::new(s.len(), |i: int| lower_char(s[i]))
}

/// A character allowed in a token symbol.
pub open spec fn symbol_char(c: char) -> bool {
    ('0' <= c <= '9') || ('a' <= c <= 'z') || c == '_' || c == '-'
}

/// A character that separates the parts of an account id.
pub open spec fn account_separator(c: char) -> bool {
    c == '-' || c == '_' || c == '.'
}

/// A character allowed in an account id.
pub open spec fn account_char(c: char) -> bool {
    ('0' <= c <= '9') || ('a' <= c <= 'z') || account_separator(c)
}

/// A valid account id: 2 to 64 characters of `a-z0-9-_.`, neither starting nor ending
/// with a separator, and no two separators in a row.
pub open spec fn valid_account_id(s: Seq<char>) -> bool {
    &&& 2 <= s.len() <= 64
    &&& forall|i: int| 0 <= i < s.len() ==> account_char(#[trigger] s[i])
    &&& !account_separator(s[0])
    &&& !account_separator(s.last())
    &&& forall|i: int|
        0 <= i < s.len() - 1 ==> !(account_separator(#[trigger] s[i]) && account_separator(
            s[i + 1],
        ))
}

/// Relies on `near_sdk::env::is_valid_account_id`, which checks the bytes of the id: the
/// length bounds 2 and 64, the characters `a-z0-9-_.`, and the placement of separators. A
/// non-ASCII character encodes as bytes outside that set, so the check on bytes is the
/// check on characters.
#[verifier::external_body]
pub(crate) fn is_valid_account_id(s: &str) -> (r: bool)
    ensures
        r == valid_account_id(s@),
{
    near_sdk::env::is_valid_account_id(s.as_bytes())
}

/// Whether every character of `token_id` is a lower-case letter, a digit, `_` or `-`.
pub fn is_valid_symbol(token_id: &str) -> (r: bool)
    ensures
        r == forall|i: int| 0 <= i < token_id@.len() ==> symbol_char(#[trigger] token_id@[i]),
{
    let n = token_id.unicode_len();
    let mut i: usize = 0;
    while i < n
        invariant
            n == token_id@.len(),
            i <= n,
            forall|j: int| 0 <= j < i ==> symbol_char(#[trigger] token_id@[j]),
        decreases n - i,
    {
        let c = token_id.get_char(i);
        if !(('0' <= c && c <= '9') || ('a' <= c && c <= 'z') || c == '_' || c == '-') {
            return false;
        }
        i = i + 1;
    }
    true
}

/// The characters of `v` as a string.
pub(crate) fn string_of(v: &Vec<char>) -> (r: String)
    ensures
        r@ == v@,
{
    let mut r = String::new();
    let mut i: usize = 0;
    while i < v.len()
        invariant
            i <= v.len(),
            r@ == v@.take(i as int),
        decreases v.len() - i,
    {
        push_char(&mut r, v[i]);
        assert(v@.take(i + 1) =~= v@.take(i as int).push(v@[i as int]));
        i = i + 1;
    }
    assert(v@.take(v.len() as int) =~= v@);
    r
}

/// Appends the characters of `s` to `v`.
pub(crate) fn push_str(v: &mut Vec<char>, s: &str)
    ensures
        final(v)@ == old(v)@ + s@,
{
    let n = s.unicode_len();
    let mut i: usize = 0;
    while i < n
        invariant
            n == s@.len(),
            i <= n,
            v@ == old(v)@ + s@.take(i as int),
        decreases n - i,
    {
        v.push(s.get_char(i));
        assert(s@.take(i + 1) =~= s@.take(i as int).push(s@[i as int]));
        i = i + 1;
    }
    assert(s@.take(n as int) =~= s@);
}

/// Appends the decimal digits of `n`.
pub(crate) fn push_decimal(v: &mut Vec<char>, n: u128)
    ensures
        final(v)@ == old(v)@ + decimal(n as nat),
    decreases n,
{
    if n >= 10 {
        push_decimal(v, n / 10);
    }
    let d = n % 10;
    let c = if d == 0 { '0' }
        else if d == 1 { '1' }
        else if d == 2 { '2' }
        else if d == 3 { '3' }
        else if d == 4 { '4' }
        else if d == 5 { '5' }
        else if d == 6 { '6' }
        else if d == 7 { '7' }
        else if d == 8 { '8' }
        else { '9' };
    v.push(c);
    assert(final(v)@ =~= old(v)@ + decimal(n as nat));
}

/// `amount` in decimal, padded with leading zeros to four digits, then without trailing
/// zeros (at most four of them), keeping at least one digit.
pub fn remove_trailing_zeros(amount: u128) -> (r: String)
    ensures
        r@ == strip_trailing_zeros(decimal_padded4(amount as nat), 4),
{
    let mut digits: Vec<char> = Vec::new();
    push_decimal(&mut digits, amount);
    assert(digits@ =~= decimal(amount as nat));
    let mut v: Vec<char> = Vec::new();
    while v.len() + digits.len() < 4
        invariant
            digits@ == decimal(amount as nat),
            v@ == Seq::new(v@.len(), |i: int| '0'),
            v.len() + digits.len() <= 4 || v.len() == 0,
        decreases 4 - v.len(),
    {
        v.push('0');
        assert(v@ =~= Seq::new(v@.len(), |i: int| '0'));
    }
    let ghost pad = v@;
    let mut i: usize = 0;
    while i < digits.len()
        invariant
            i <= digits.len(),
            v@ == pad + digits@.take(i as int),
        decreases digits.len() - i,
    {
        v.push(digits[i]);
        assert(digits@.take(i + 1) =~= digits@.take(i as int).push(digits@[i as int]));
        i = i + 1;
    }
    assert(digits@.take(digits.len() as int) =~= digits@);
    assert(v@ =~= decimal_padded4(amount as nat));
    let mut k: usize = 4;
    while k > 0
        invariant
            k <= 4,
            strip_trailing_zeros(v@, k as nat) == strip_trailing_zeros(
                decimal_padded4(amount as nat),
                4,
            ),
        decreases k,
    {
        if v.len() > 1 && v[v.len() - 1] == '0' {
            v.pop();
            k = k - 1;
        } else {
            k = 0;
        }
    }
    string_of(&v)
}

/// `s` without white space: the form of a symbol used in names and ids.
pub fn format_title(s: &str) -> (r: String)
    ensures
        r@ == without_white_space(s@),
{
    let n = s.unicode_len();
    let mut v: Vec<char> = Vec::new();
    let mut i: usize = 0;
    while i < n
        invariant
            n == s@.len(),
            i <= n,
            v@ == without_white_space(s@.take(i as int)),
        decreases n - i,
    {
        let c = s.get_char(i);
        assert(s@.take(i + 1).drop_last() =~= s@.take(i as int));
        if !is_white_space(c) {
            v.push(c);
        }
        i = i + 1;
    }
    assert(s@.take(n as int) =~= s@);
    string_of(&v)
}

/// `v` with `A`-`Z` turned into `a`-`z`, as a string.
pub(crate) fn lowercase_string_of(v: &Vec<char>) -> (r: String)
    ensures
        r@ == ascii_lower(v@),
{
    let mut w: Vec<char> = Vec::new();
    let mut i: usize = 0;
    while i < v.len()
        invariant
            i <= v.len(),
            w@ == ascii_lower(v@.take(i as int)),
        decreases v.len() - i,
    {
        let c = lower_ascii_char(v[i]);
        assert(c == lower_char(v@[i as int])) by {
            if is_upper_ascii(v@[i as int]) {
                assert(code_of(c) == v@[i as int] as u32 + 32);
                let d = choose|d: char| #[trigger] code_of(d) == v@[i as int] as u32 + 32;
                assert(d as u32 == c as u32);
            }
        }
        w.push(c);
        i = i + 1;
        assert(w@ =~= ascii_lower(v@.take(i as int)));
    }
    assert(v@.take(v.len() as int) =~= v@);
    string_of(&w)
}

} // verus!
