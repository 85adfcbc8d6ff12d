//! Small helpers on strings.

use vstd::prelude::*;
use vstd::std_specs::iter::IteratorSpec;
use vstd::string::{StrSliceExecFns, StringExecFns, StringSliceAdditionalSpecFns};
use vstd::utf8::{encode_utf8, encode_utf8_decode_utf8};

verus! {

/// The length of a text in bytes of UTF-8.
pub open spec fn byte_len(text: Seq<char>) -> nat {
    encode_utf8(text).len()
}

/// Whether the two hold the same characters, found by comparing their
/// bytes: two texts are the same exactly where their UTF-8 is.
pub fn str_eq(a: &str, b: &str) -> (same: bool)
    ensures
        same == (a@ == b@),
{
    let x = a.as_bytes();
    let y = b.as_bytes();
    proof {
        encode_utf8_decode_utf8(a@);
        encode_utf8_decode_utf8(b@);
    }
    if x.len() != y.len() {
        return false;
    }
    let mut i: usize = 0;
    while i < x.len()
        invariant
            x@ == encode_utf8(a@),
            y@ == encode_utf8(b@),
            i <= x@.len(),
            x@.len() == y@.len(),
            forall|j: int| 0 <= j < i ==> x@[j] == y@[j],
        decreases x@.len() - i,
    {
        if x[i] != y[i] {
            return false;
        }
        i += 1;
    }
    assert(x@ =~= y@);
    true
}

/// The character of a decimal digit.
pub open spec fn digit_char(d: nat) -> char {
    if d == 0 {
        '0'
    } else if d == 1 {
        '1'
    } else if d == 2 {
        '2'
    } else if d == 3 {
        '3'
    } else if d == 4 {
        '4'
    } else if d == 5 {
        '5'
    } else if d == 6 {
        '6'
    } else if d == 7 {
        '7'
    } else if d == 8 {
        '8'
    } else {
        '9'
    }
}

/// A number in decimal digits, without sign or leading zeros.
pub open spec fn decimal(n: nat) -> Seq<char>
    decreases n,
{
    if n < 10 {
        seq![digit_char(n)]
    } else {
        decimal(n / 10).push(digit_char(n % 10))
    }
}

fn digit_str(d: u64) -> (s: &'static str)
    requires
        d < 10,
    ensures
        s@ == seq![digit_char(d as nat)],
{
    proof {
        reveal_strlit("0");
        reveal_strlit("1");
        reveal_strlit("2");
        reveal_strlit("3");
        reveal_strlit("4");
        reveal_strlit("5");
        reveal_strlit("6");
        reveal_strlit("7");
        reveal_strlit("8");
        reveal_strlit("9");
    }
    let s = if d == 0 {
        "0"
    } else if d == 1 {
        "1"
    } else if d == 2 {
        "2"
    } else if d == 3 {
        "3"
    } else if d == 4 {
        "4"
    } else if d == 5 {
        "5"
    } else if d == 6 {
        "6"
    } else if d == 7 {
        "7"
    } else if d == 8 {
        "8"
    } else {
        "9"
    };
    assert(s@ =~= seq![digit_char(d as nat)]);
    s
}

/// Writes a number in decimal digits.
pub fn decimal_string(n: u64) -> (s: String)
    ensures
        s@ == decimal(n as nat),
    decreases n,
{
    if n < 10 {
        String::from_str(digit_str(n))
    } else {
        let mut s = decimal_string(n / 10);
        s.append(digit_str(n % 10));
        s
    }
}

/// The part of a request target before its query: up to the first `?`.
pub open spec fn without_query(target: Seq<char>) -> Seq<char>
    decreases target.len(),
{
    if target.len() == 0 || target[0] == '?' {
        Seq::empty()
    } else {
        seq![target[0]] + without_query(target.drop_first())
    }
}

/// What `without_query` gives has no `?`, and is the whole target where the
/// target has none.
pub proof fn lemma_without_query(target: Seq<char>)
    ensures
        !without_query(target).contains('?'),
        without_query(target).is_prefix_of(target),
        !target.contains('?') ==> without_query(target) == target,
        without_query(target).len() < target.len()
            ==> target[without_query(target).len() as int] == '?',
    decreases target.len(),
{
    if target.len() == 0 || target[0] == '?' {
    } else {
        let rest = target.drop_first();
        lemma_without_query(rest);
        let head = seq![target[0]];
        let out = head + without_query(rest);
        if out.contains('?') {
            let i = choose|i: int| 0 <= i < out.len() && out[i] == '?';
            assert(without_query(rest)[i - 1] == '?');
        }
        if !target.contains('?') {
            if rest.contains('?') {
                let i = choose|i: int| 0 <= i < rest.len() && rest[i] == '?';
                assert(target[i + 1] == '?');
            }
            assert(out =~= target);
        }
        assert(out.is_prefix_of(target)) by {
            assert(without_query(rest) =~= rest.subrange(0, without_query(rest).len() as int));
            assert(out =~= target.subrange(0, out.len() as int));
        }
        if out.len() < target.len() {
            assert(target[out.len() as int] == rest[without_query(rest).len() as int]);
        }
    }
}

proof fn lemma_without_query_is(target: Seq<char>, k: int)
    requires
        0 <= k <= target.len(),
        forall|i: int| 0 <= i < k ==> target[i] != '?',
        k < target.len() ==> target[k] == '?',
    ensures
        without_query(target) == target.subrange(0, k),
    decreases target.len(),
{
    if target.len() == 0 || target[0] == '?' {
        if k > 0 {
            assert(target[0] != '?');
        }
        assert(target.subrange(0, k) =~= Seq::<char>::empty());
    } else {
        let rest = target.drop_first();
        assert(k > 0);
        assert forall|i: int| 0 <= i < k - 1 implies rest[i] != '?' by {
            assert(rest[i] == target[i + 1]);
        }
        lemma_without_query_is(rest, k - 1);
        assert(seq![target[0]] + rest.subrange(0, k - 1) =~= target.subrange(0, k));
    }
}

/// Cuts a request target off before its query.
pub fn strip_query(target: &str) -> (path: &str)
    ensures
        path@ == without_query(target@),
{
    let n = target.unicode_len();
    let mut k: usize = 0;
    let mut chars = target.chars();
    loop
        invariant_except_break
            chars.remaining() == target@.subrange(k as int, n as int),
        invariant
            n == target@.len(),
            k <= n,
            forall|i: int| 0 <= i < k ==> target@[i] != '?',
            chars.obeys_prophetic_iter_laws(),
        ensures
            k <= n,
            forall|i: int| 0 <= i < k ==> target@[i] != '?',
            k < n ==> target@[k as int] == '?',
        decreases n - k,
    {
        match chars.next() {
            Some(c) => {
                if c == '?' {
                    break ;
                }
                k += 1;
            },
            None => {
                break ;
            },
        }
    }
    proof {
        lemma_without_query_is(target@, k as int);
    }
    target.substring_char(0, k)
}

/// An integer in decimal digits, with `-` before a negative one.
pub open spec fn signed_decimal(n: int) -> Seq<char> {
    if n < 0 {
        seq!['-'] + decimal((-n) as nat)
    } else {
        decimal(n as nat)
    }
}

/// Writes an integer in decimal digits.
pub fn signed_decimal_string(n: i64) -> (s: String)
    ensures
        s@ == signed_decimal(n as int),
{
    if n < 0 {
        let magnitude: u64 = if n == i64::MIN {
            0x8000_0000_0000_0000
        } else {
            (-n) as u64
        };
        proof {
            reveal_strlit("-");
            assert("-"@ =~= seq!['-']);
        }
        String::from_str("-").concat(decimal_string(magnitude).as_str())
    } else {
        decimal_string(n as u64)
    }
}

/// `true` or `false`.
pub open spec fn bool_text(b: bool) -> Seq<char> {
    if b {
        "true"@
    } else {
        "false"@
    }
}

/// Writes `true` or `false`.
pub fn bool_str(b: bool) -> (s: &'static str)
    ensures
        s@ == bool_text(b),
{
    if b {
        "true"
    } else {
        "false"
    }
}

} // verus!
