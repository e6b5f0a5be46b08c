//! Text that the hook reads and writes: numbers in digits, names, and paths on the message bus.

use vstd::arithmetic::div_mod::{lemma_div_decreases, lemma_fundamental_div_mod, lemma_mod_bound};
use vstd::prelude::*;

verus! {

/// `String::push`: puts one character at the end.
pub assume_specification[ String::push ](s: &mut String, c: char)
    ensures
        final(s)@ == old(s)@.push(c),
;

/// The character for the digit `d`: `0` to `9`, then `a` to `f`.
pub open spec fn digit_char(d: nat) -> char {
    if d < 10 {
        ('0' as nat + d) as char
    } else {
        ('a' as nat + d - 10) as char
    }
}

/// The digits of `n` to the given base, the most significant first, without leading zeros.
pub open spec fn digits(n: nat, base: nat) -> Seq<char>
    decreases n,
{
    if base < 2 || n < base {
        seq![digit_char(n)]
    } else {
        proof {
            lemma_div_decreases(n as int, base as int);
        }
        digits(n / base, base).push(digit_char(n % base))
    }
}

/// The characters of `s`.
fn chars_of(s: &str) -> (r: Vec<char>)
    ensures
        r@ == s@,
{
    let mut r: Vec<char> = Vec::new();
    for c in iter: s.chars()
        invariant
            r@ == s@.take(iter.index() as int),
            iter.seq() == s@,
    {
        r.push(c);
    }
    r
}

fn digit(d: u8) -> (c: char)
    requires
        d < 16,
    ensures
        c == digit_char(d as nat),
{
    if d < 10 {
        (0x30u8 + d) as char
    } else {
        (0x61u8 + (d - 10)) as char
    }
}

fn format_digits(n: u128, base: u128) -> (r: String)
    requires
        2 <= base <= 16,
    ensures
        r@ == digits(n as nat, base as nat),
    decreases n,
{
    if n < base {
        let mut r = String::new();
        r.push(digit(n as u8));
        r
    } else {
        proof {
            lemma_div_decreases(n as int, base as int);
            lemma_mod_bound(n as int, base as int);
        }
        let mut r = format_digits(n / base, base);
        r.push(digit((n % base) as u8));
        r
    }
}

/// `n` in lower-case hexadecimal digits.
pub fn lower_hex(n: u128) -> (r: String)
    ensures
        r@ == digits(n as nat, 16),
{
    format_digits(n, 16)
}

/// `n` in decimal digits.
pub fn decimal(n: u64) -> (r: String)
    ensures
        r@ == digits(n as nat, 10),
{
    format_digits(n as u128, 10)
}

/// What the character `c` counts for as a digit: its place in `0123456789abcdef`, or nothing.
pub open spec fn digit_value(c: char) -> Option<nat> {
    if '0' <= c <= '9' {
        Some((c as nat - 48) as nat)
    } else if 'a' <= c <= 'f' {
        Some((c as nat - 97 + 10) as nat)
    } else {
        None
    }
}

/// The number that `s` is read as, to the given base.
pub open spec fn number_in(s: Seq<char>, base: nat) -> nat
    decreases s.len(),
{
    if s.len() == 0 {
        0
    } else {
        number_in(s.drop_last(), base) * base + digit_value(s.last())->0
    }
}

/// The digits of a number are read as that number again. Each of them is below the base, and the
/// first is a zero only where it is the only one.
pub proof fn digits_read_back(n: nat, base: nat)
    requires
        2 <= base <= 16,
    ensures
        number_in(digits(n, base), base) == n,
        digits(n, base).len() > 0,
        digits(n, base).len() > 1 ==> digits(n, base)[0] != '0',
        forall|i: int|
            0 <= i < digits(n, base).len() ==> (digit_value(#[trigger] digits(n, base)[i]) matches Some(
                value,
            ) && value < base),
    decreases n,
{
    let s = digits(n, base);
    lemma_mod_bound(n as int, base as int);
    lemma_fundamental_div_mod(n as int, base as int);
    if n < base {
        digit_char_value(n);
        assert(s == seq![digit_char(n)]);
        assert(s.drop_last() =~= Seq::<char>::empty());
        assert(number_in(s.drop_last(), base) == 0);
        assert(s.last() == digit_char(n));
        assert(digit_value(digit_char(n)) == Some(n));
        assert(0 * base == 0);
    } else {
        lemma_div_decreases(n as int, base as int);
        digits_read_back(n / base, base);
        digit_char_value(n % base);
        assert(digit_value(digit_char(n % base)) == Some(n % base));
        let rest = digits(n / base, base);
        assert(s == rest.push(digit_char(n % base)));
        assert(s.drop_last() =~= rest);
        assert((n / base) * base == base * (n / base)) by (nonlinear_arith);
        assert(rest[0] != '0') by {
            if rest.len() == 1 {
                let high = n / base;
                assert(high == 0 ==> base * high == 0) by (nonlinear_arith);
                assert(0 * base == 0);
                assert(digit_value('0') == Some(0nat));
                assert(rest.drop_last() =~= Seq::<char>::empty());
                assert(number_in(rest.drop_last(), base) == 0);
            }
        }
    }
}

/// Two numbers with the same digits are the same number.
pub proof fn digits_tell_numbers_apart(a: nat, b: nat, base: nat)
    requires
        2 <= base <= 16,
        digits(a, base) == digits(b, base),
    ensures
        a == b,
    decreases a,
{
    digits_not_empty(a / base, base);
    digits_not_empty(b / base, base);
    lemma_mod_bound(a as int, base as int);
    lemma_mod_bound(b as int, base as int);
    lemma_fundamental_div_mod(a as int, base as int);
    lemma_fundamental_div_mod(b as int, base as int);
    if a < base {
        assert(digits(a, base) == seq![digit_char(a)]);
        assert(b < base);
        assert(digits(b, base) == seq![digit_char(b)]);
        digit_char_value(a);
        digit_char_value(b);
        assert(digit_char(a) == digits(a, base)[0]);
        assert(digit_char(b) == digits(b, base)[0]);
    } else {
        assert(digits(a, base) == digits(a / base, base).push(digit_char(a % base)));
        assert(b >= base);
        assert(digits(b, base) == digits(b / base, base).push(digit_char(b % base)));
        lemma_div_decreases(a as int, base as int);
        assert(digits(a, base).drop_last() =~= digits(a / base, base));
        assert(digits(b, base).drop_last() =~= digits(b / base, base));
        digits_tell_numbers_apart(a / base, b / base, base);
        digit_char_value(a % base);
        digit_char_value(b % base);
        assert(digit_char(a % base) == digits(a, base).last());
        assert(digit_char(b % base) == digits(b, base).last());
    }
}

proof fn digit_char_value(d: nat)
    requires
        d < 16,
    ensures
        digit_char(d) as int == if d < 10 { 0x30 + d as int } else { 0x57 + d as int },
{
}

proof fn digits_not_empty(n: nat, base: nat)
    ensures
        digits(n, base).len() > 0,
{
}

/// Whether `needle` stands in `haystack` from position `k` on.
pub open spec fn occurs_at(haystack: Seq<char>, needle: Seq<char>, k: int) -> bool {
    0 <= k && k + needle.len() <= haystack.len() && haystack.subrange(k, k + needle.len()) == needle
}

/// Whether `needle` stands somewhere in `haystack`.
pub open spec fn occurs_in(haystack: Seq<char>, needle: Seq<char>) -> bool {
    exists|k: int| occurs_at(haystack, needle, k)
}

/// Whether `haystack` contains `needle`.
pub fn contains_text(haystack: &str, needle: &str) -> (r: bool)
    ensures
        r == occurs_in(haystack@, needle@),
{
    let h = chars_of(haystack);
    let n = chars_of(needle);
    if n.len() > h.len() {
        return false;
    }
    let mut k: usize = 0;
    while k <= h.len() - n.len()
        invariant
            h@ == haystack@,
            n@ == needle@,
            n@.len() <= h@.len(),
            k <= h@.len() - n@.len() + 1,
            forall|j: int| 0 <= j < k ==> !occurs_at(h@, n@, j),
        decreases h@.len() + 1 - k,
    {
        let mut i: usize = 0;
        while i < n.len() && h[k + i] == n[i]
            invariant
                k + n.len() <= h.len(),
                i <= n@.len(),
                forall|j: int| 0 <= j < i ==> #[trigger] h@[k + j] == n@[j],
            decreases n@.len() - i,
        {
            i = i + 1;
        }
        if i == n.len() {
            assert forall|j: int| 0 <= j < n@.len() implies #[trigger] h@.subrange(
                k as int,
                k + n@.len(),
            )[j] == n@[j] by {
                assert(h@[k + j] == n@[j]);
            }
            assert(h@.subrange(k as int, k + n@.len()) =~= n@);
            assert(occurs_at(haystack@, needle@, k as int));
            return true;
        }
        assert(h@.subrange(k as int, k + n@.len())[i as int] != n@[i as int]);
        k = k + 1;
    }
    false
}

/// A text is found wherever it stands, whatever is written before and after it.
pub proof fn text_is_found_between_others(before: Seq<char>, needle: Seq<char>, after: Seq<char>)
    ensures
        occurs_in(before + needle + after, needle),
{
    let all = before + needle + after;
    let k = before.len() as int;
    assert(all.subrange(k, k + needle.len()) =~= needle);
    assert(occurs_at(all, needle, k));
}

/// A text is found only where it stands between what is written before and after it.
pub proof fn found_text_is_there(haystack: Seq<char>, needle: Seq<char>)
    requires
        occurs_in(haystack, needle),
    ensures
        exists|before: Seq<char>, after: Seq<char>|
            haystack == #[trigger] (before + needle + after),
{
    let k = choose|k: int| occurs_at(haystack, needle, k);
    let before = haystack.take(k);
    let after = haystack.skip(k + needle.len());
    assert(haystack =~= before + needle + after) by {
        assert forall|i: int| 0 <= i < haystack.len() implies haystack[i] == (before + needle
            + after)[i] by {
            if k <= i < k + needle.len() {
                assert(haystack.subrange(k, k + needle.len())[i - k] == haystack[i]);
            }
        }
    }
}

/// Whether the texts `a` and `b` are the same.
pub fn same_text(a: &str, b: &str) -> (r: bool)
    ensures
        r == (a@ == b@),
{
    let x = chars_of(a);
    let y = chars_of(b);
    if x.len() != y.len() {
        return false;
    }
    let mut i: usize = 0;
    while i < x.len()
        invariant
            x@ == a@,
            y@ == b@,
            x@.len() == y@.len(),
            i <= x@.len(),
            forall|j: int| 0 <= j < i ==> x@[j] == y@[j],
        decreases x@.len() - i,
    {
        if x[i] != y[i] {
            return false;
        }
        i = i + 1;
    }
    assert(x@ =~= y@);
    true
}

/// Whether `c` may stand in an element of an object path.
pub open spec fn path_char(c: char) -> bool {
    'a' <= c <= 'z' || 'A' <= c <= 'Z' || '0' <= c <= '9' || c == '_'
}

/// Whether `s` is an object path of the message bus: it begins with a slash, elements of letters,
/// digits and underscores are parted by single slashes, and only the root ends in one.
pub open spec fn object_path(s: Seq<char>) -> bool {
    &&& s.len() > 0
    &&& s[0] == '/'
    &&& s.len() > 1 ==> s.last() != '/'
    &&& forall|i: int| 0 <= i < s.len() ==> #[trigger] s[i] == '/' || path_char(s[i])
    &&& forall|i: int, j: int|
        0 <= i && j == i + 1 && j < s.len() ==> !(#[trigger] s[i] == '/' && #[trigger] s[j] == '/')
}

/// An object path grows by a slash and an element of letters, digits and underscores; the root takes
/// the element without another slash.
pub proof fn object_path_grows_by_an_element(path: Seq<char>, element: Seq<char>)
    requires
        object_path(path),
        element.len() > 0,
        forall|i: int|
            0 <= i < element.len() ==> {
                let c = #[trigger] element[i];
                'a' <= c <= 'z' || 'A' <= c <= 'Z' || '0' <= c <= '9' || c == '_'
            },
    ensures
        path.len() == 1 ==> object_path(path + element),
        path.len() > 1 ==> object_path(path + seq!['/'] + element),
{
    let joined = if path.len() == 1 {
        path + element
    } else {
        path + seq!['/'] + element
    };
    assert(joined.last() == element.last());
}

/// What an object path looks like: a slash comes first, none comes last behind anything else, no two
/// follow each other, and all the rest is letters, digits and underscores.
pub proof fn object_path_has_plain_elements(path: Seq<char>, i: int)
    requires
        object_path(path),
        0 <= i < path.len(),
    ensures
        path[0] == '/',
        path[i] == '/' && i + 1 < path.len() ==> path[i + 1] != '/',
        path[i] == '/' && i > 0 ==> i + 1 < path.len(),
        path[i] != '/' ==> ('a' <= path[i] <= 'z' || 'A' <= path[i] <= 'Z' || '0' <= path[i] <= '9'
            || path[i] == '_'),
{
}

/// A number that has been written in digits is read as that number, and no shorter text would be: the
/// first digit is a zero only where it is the only one. Hexadecimal digits are in lower case.
pub proof fn written_numbers_read_back(n: u128, hex: String, m: u64, dec: String, i: int)
    requires
        call_ensures(lower_hex, (n,), hex),
        call_ensures(decimal, (m,), dec),
    ensures
        number_in(hex@, 16) == n,
        hex@.len() > 0,
        hex@.len() > 1 ==> hex@[0] != '0',
        0 <= i < hex@.len() ==> '0' <= hex@[i] <= '9' || 'a' <= hex@[i] <= 'f',
        number_in(dec@, 10) == m,
        dec@.len() > 0,
        dec@.len() > 1 ==> dec@[0] != '0',
        0 <= i < dec@.len() ==> '0' <= dec@[i] <= '9',
{
    digits_read_back(n as nat, 16);
    digits_read_back(m as nat, 10);
    if 0 <= i < dec@.len() {
        assert(digit_value(dec@[i]) is Some && digit_value(dec@[i])->0 < 10);
    }
    if 0 <= i < hex@.len() {
        assert(digit_value(hex@[i]) is Some);
    }
}

/// A search finds a text if and only if it stands between what is written before and after it.
pub proof fn search_finds_what_is_written(haystack: &str, needle: &str, found: bool)
    requires
        call_ensures(contains_text, (haystack, needle), found),
    ensures
        found <==> exists|before: Seq<char>, after: Seq<char>|
            haystack@ == #[trigger] (before + needle@ + after),
{
    if found {
        found_text_is_there(haystack@, needle@);
    }
    assert forall|before: Seq<char>, after: Seq<char>|
        haystack@ == #[trigger] (before + needle@ + after) implies found by {
        text_is_found_between_others(before, needle@, after);
    }
}

/// Texts are the same if and only if they are equally long and agree in every character.
pub proof fn same_texts_agree_in_every_character(a: &str, b: &str, same: bool)
    requires
        call_ensures(same_text, (a, b), same),
    ensures
        same <==> a@.len() == b@.len() && forall|i: int| 0 <= i < a@.len() ==> a@[i] == b@[i],
{
    if a@.len() == b@.len() && (forall|i: int| 0 <= i < a@.len() ==> a@[i] == b@[i]) {
        assert(a@ =~= b@);
    }
}

} // verus!
