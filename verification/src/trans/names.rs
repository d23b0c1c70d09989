//! The names the lowering gives to what it emits.

use vstd::prelude::*;
use vstd::string::StrSliceExecFns;
use vstd::string::StringExecFns;

verus! {

/// `String::push` appends one character at the end of the string.
pub assume_specification[ String::push ](s: &mut String, c: char)
    ensures
        final(s)@ == old(s)@.push(c),
;

/// The character a path character is written as in a symbol: `_` for the
/// angle brackets, the round brackets and the space, else itself.
pub open spec fn spec_sanitize_char(c: char) -> char {
    if c == '<' || c == '>' || c == ' ' || c == '(' || c == ')' {
        '_'
    } else {
        c
    }
}

/// The symbol for a path: the path with each character sanitized.
pub open spec fn spec_sanitize_symbol(s: Seq<char>) -> Seq<char> {
    s.map_values(|c: char| spec_sanitize_char(c))
}

fn sanitize_char(c: char) -> (r: char)
    ensures
        r == spec_sanitize_char(c),
{
    match c {
        '<' | '>' | ' ' | '(' | ')' => '_',
        _ => c,
    }
}

pub fn sanitize_symbol(s: &str) -> (r: String)
    ensures
        r@ == spec_sanitize_symbol(s@),
{
    let n = s.unicode_len();
    let mut r = String::new();
    let mut i: usize = 0;
    while i < n
        invariant
            n == s@.len(),
            i <= n,
            r@ == spec_sanitize_symbol(s@.subrange(0, i as int)),
        decreases n - i,
    {
        let c = s.get_char(i);
        r.push(sanitize_char(c));
        assert(r@ =~= spec_sanitize_symbol(s@.subrange(0, i + 1)));
        i += 1;
    }
    assert(s@.subrange(0, n as int) =~= s@);
    r
}

/// The character of a decimal digit.
pub open spec fn spec_digit(d: nat) -> char {
    if d == 0 {
        '0'
    } else if d == 1 {
        '1'
    } else if d == 2 {
        '2'
    } else if d == 3 {
        '3'
    } else if d == 4 {
        '4'
    } else if d == 5 {
        '5'
    } else if d == 6 {
        '6'
    } else if d == 7 {
        '7'
    } else if d == 8 {
        '8'
    } else {
        '9'
    }
}

/// The decimal numeral of `n`, without leading zeros.
pub open spec fn spec_decimal(n: nat) -> Seq<char>
    decreases n,
{
    if n < 10 {
        seq![spec_digit(n)]
    } else {
        spec_decimal(n / 10).push(spec_digit(n % 10))
    }
}

fn digit(d: u64) -> (r: char)
    requires
        d < 10,
    ensures
        r == spec_digit(d as nat),
{
    if d == 0 {
        '0'
    } else if d == 1 {
        '1'
    } else if d == 2 {
        '2'
    } else if d == 3 {
        '3'
    } else if d == 4 {
        '4'
    } else if d == 5 {
        '5'
    } else if d == 6 {
        '6'
    } else if d == 7 {
        '7'
    } else if d == 8 {
        '8'
    } else {
        '9'
    }
}

/// Appends the decimal numeral of `n` to `s`.
pub fn push_decimal(s: &mut String, n: u64)
    ensures
        final(s)@ == old(s)@ + spec_decimal(n as nat),
    decreases n,
{
    if n >= 10 {
        push_decimal(s, n / 10);
    }
    s.push(digit(n % 10));
    assert(s@ =~= old(s)@ + spec_decimal(n as nat));
}

/// The name of the block built from the basic block with index `i`.
pub open spec fn spec_block_name(i: nat) -> Seq<char> {
    "bb"@ + spec_decimal(i)
}

pub fn block_name(i: usize) -> (r: String)
    ensures
        r@ == spec_block_name(i as nat),
{
    let mut r = String::from_str("bb");
    push_decimal(&mut r, i as u64);
    r
}

/// The name of the type of the functions with the signature first met at
/// the definition with index `index` in the crate `krate`.
pub open spec fn spec_sig_type_name(krate: u32, index: u32) -> Seq<char> {
    "rustfn-"@ + spec_decimal(krate as nat) + "-"@ + spec_decimal(index as nat)
}

pub fn sig_type_name(krate: u32, index: u32) -> (r: String)
    ensures
        r@ == spec_sig_type_name(krate, index),
{
    let mut r = String::from_str("rustfn-");
    push_decimal(&mut r, krate as u64);
    r.append("-");
    push_decimal(&mut r, index as u64);
    r
}

} // verus!
