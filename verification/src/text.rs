use vstd::prelude::*;
use crate::ident::{uuid_hyphenated, uuid_text};

verus! {

/// The character of decimal digit `d` (0 to 9).
pub open spec fn digit_char(d: int) -> char {
    ('0' as int + d) as char
}

/// The decimal text of `n`, without sign or leading zeros ("0" for zero).
pub open spec fn decimal(n: nat) -> Seq<char>
    decreases n,
{
    if n < 10 {
        seq![digit_char(n as int)]
    } else {
        decimal(n / 10).push(digit_char((n % 10) as int))
    }
}

/// The one-character text of decimal digit `d`.
fn digit_text(d: u64) -> (s: &'static str)
    requires
        d < 10,
    ensures
        s@ == seq![digit_char(d as int)],
{
    proof {
        reveal_strlit("0");
        reveal_strlit("1");
        reveal_strlit("2");
        reveal_strlit("3");
        reveal_strlit("4");
        reveal_strlit("5");
        reveal_strlit("6");
        reveal_strlit("7");
        reveal_strlit("8");
        reveal_strlit("9");
    }
    if d == 0 {
        "0"
    } else if d == 1 {
        "1"
    } else if d == 2 {
        "2"
    } else if d == 3 {
        "3"
    } else if d == 4 {
        "4"
    } else if d == 5 {
        "5"
    } else if d == 6 {
        "6"
    } else if d == 7 {
        "7"
    } else if d == 8 {
        "8"
    } else {
        "9"
    }
}

/// The decimal text of `n`: its digits, most significant first, with no
/// sign or padding.
pub(crate) fn decimal_text(n: u64) -> (s: String)
    ensures
        s@ == decimal(n as nat),
    decreases n,
{
    if n < 10 {
        String::from_str(digit_text(n))
    } else {
        let mut s = decimal_text(n / 10);
        s.append(digit_text(n % 10));
        s
    }
}

/// The `Debug` text of a list of UUIDs: `[a, b, c]`, each hyphenated.
pub open spec fn ids_debug(ids: Seq<u128>) -> Seq<char>
    decreases ids.len(),
{
    "["@ + ids_joined(ids) + "]"@
}

/// The hyphenated texts of `ids` joined by ", ".
pub open spec fn ids_joined(ids: Seq<u128>) -> Seq<char>
    decreases ids.len(),
{
    if ids.len() == 0 {
        Seq::empty()
    } else if ids.len() == 1 {
        uuid_hyphenated(ids[0])
    } else {
        ids_joined(ids.drop_last()) + ", "@ + uuid_hyphenated(ids.last())
    }
}

/// The `Debug` text of a list of UUIDs.
pub fn ids_debug_text(ids: &Vec<u128>) -> (s: String)
    ensures
        s@ == ids_debug(ids@),
{
    let mut body = String::new();
    let n = ids.len();
    let mut i: usize = 0;
    while i < n
        invariant
            n == ids@.len(),
            i <= n,
            body@ == ids_joined(ids@.take(i as int)),
        decreases n - i,
    {
        let t = uuid_text(ids[i]);
        if i > 0 {
            body.append(", ");
        }
        body.append(t.as_str());
        proof {
            assert(ids@.take(i + 1).drop_last() =~= ids@.take(i as int));
            if i == 0 {
                assert(Seq::<char>::empty() + uuid_hyphenated(ids@[0]) =~= uuid_hyphenated(ids@[0]));
            }
        }
        i = i + 1;
    }
    assert(ids@.take(n as int) =~= ids@);
    let mut s = String::from_str("[");
    s.append(body.as_str());
    s.append("]");
    s
}

/// Whether two texts are equal, character by character.
pub fn same_text(x: &str, y: &str) -> (r: bool)
    ensures
        r == (x@ == y@),
{
    let n = x.unicode_len();
    if n != y.unicode_len() {
        return false;
    }
    let mut i: usize = 0;
    while i < n
        invariant
            n == x@.len(),
            n == y@.len(),
            i <= n,
            forall|j: int| 0 <= j < i ==> x@[j] == y@[j],
        decreases n - i,
    {
        if x.get_char(i) != y.get_char(i) {
            return false;
        }
        i = i + 1;
    }
    assert(x@ =~= y@);
    true
}

/// A decimal digit.
pub open spec fn is_digit(c: char) -> bool {
    '0' <= c <= '9'
}

/// The number a string of decimal digits spells.
pub open spec fn digits_value(s: Seq<char>) -> nat
    decreases s.len(),
{
    if s.len() == 0 {
        0
    } else {
        digits_value(s.drop_last()) * 10 + (s.last() as nat - '0' as nat) as nat
    }
}

/// The digits of an unsigned number's text: a leading `+` is allowed.
pub open spec fn unsigned_digits(s: Seq<char>) -> Seq<char> {
    if s.len() > 0 && s[0] == '+' {
        s.drop_first()
    } else {
        s
    }
}

/// What `u32::from_str` gives for `s`: the number when `s` is one or more
/// decimal digits, optionally after a `+`, of value at most `u32::MAX`.
pub open spec fn spec_parse_u32(s: Seq<char>) -> Option<u32> {
    let d = unsigned_digits(s);
    if d.len() > 0 && (forall|i: int| 0 <= i < d.len() ==> is_digit(#[trigger] d[i])) && digits_value(d)
        <= u32::MAX {
        Some(digits_value(d) as u32)
    } else {
        None
    }
}

proof fn lemma_digits_monotone(d: Seq<char>, k: int, j: int)
    requires
        0 <= k <= j <= d.len(),
        forall|i: int| 0 <= i < d.len() ==> is_digit(#[trigger] d[i]),
    ensures
        digits_value(d.take(k)) <= digits_value(d.take(j)),
    decreases j - k,
{
    if k < j {
        lemma_digits_monotone(d, k, j - 1);
        assert(d.take(j).drop_last() =~= d.take(j - 1));
        assert(is_digit(d[j - 1]));
    }
}

/// Read an unsigned 32-bit number as `u32::from_str` does.
pub fn parse_u32(s: &str) -> (r: Option<u32>)
    ensures
        r == spec_parse_u32(s@),
{
    let n = s.unicode_len();
    let mut start: usize = 0;
    if n > 0 && s.get_char(0) == '+' {
        start = 1;
    }
    let ghost d = unsigned_digits(s@);
    proof {
        if start == 1 {
            assert(d =~= s@.subrange(1, n as int));
        } else {
            assert(d =~= s@.subrange(0, n as int));
        }
    }
    if start == n {
        return None;
    }
    let mut acc: u64 = 0;
    let mut i: usize = start;
    while i < n
        invariant
            n == s@.len(),
            start <= i <= n,
            start < n,
            d =~= s@.subrange(start as int, n as int),
            d == unsigned_digits(s@),
            forall|k: int| 0 <= k < i - start ==> is_digit(#[trigger] d[k]),
            acc == digits_value(d.take(i - start)),
            acc <= u32::MAX,
        decreases n - i,
    {
        let c = s.get_char(i);
        if !('0' <= c && c <= '9') {
            proof {
                assert(d[i - start] == c);
                assert(!is_digit(d[i - start]));
            }
            return None;
        }
        proof {
            assert(d.take(i - start + 1).drop_last() =~= d.take(i - start));
            assert(d.take(i - start + 1).last() == c);
        }
        acc = acc * 10 + (c as u64 - '0' as u64);
        proof {
            assert(acc == digits_value(d.take(i - start + 1)));
        }
        if acc > u32::MAX as u64 {
            proof {
                if forall|k: int| 0 <= k < d.len() ==> is_digit(#[trigger] d[k]) {
                    lemma_digits_monotone(d, i - start + 1, d.len() as int);
                    assert(d.take(d.len() as int) =~= d);
                }
            }
            return None;
        }
        i = i + 1;
    }
    proof {
        assert(d.take(n - start) =~= d);
    }
    Some(acc as u32)
}

} // verus!
