//! Lexicographic ordering on strings, by Unicode code point.
//!
//! The property maps and role-group listings of this crate are kept in a
//! deterministic order so that repeated synthesis yields identical objects.
//! The order is the one below: code-point-wise lexicographic, which on the
//! ASCII keys used throughout coincides with byte order.
use vstd::prelude::*;

verus! {

/// Outcome of comparing two strings.
#[derive(Clone, Copy, PartialEq, Eq, Structural, Debug)]
pub enum StrOrder {
    Less,
    Equal,
    Greater,
}

/// `a` is strictly before `b` in code-point-wise lexicographic order.
pub open spec fn chars_lt(a: Seq<char>, b: Seq<char>) -> bool
    decreases a.len(),
{
    if b.len() == 0 {
        false
    } else if a.len() == 0 {
        true
    } else if a[0] == b[0] {
        chars_lt(a.skip(1), b.skip(1))
    } else {
        (a[0] as int) < (b[0] as int)
    }
}

/// Two characters with the same code point are the same character.
proof fn lemma_char_code_injective(x: char, y: char)
    requires
        (x as int) == (y as int),
    ensures
        x == y,
{
}

/// A string is never strictly before itself.
pub proof fn lemma_chars_lt_irreflexive(a: Seq<char>)
    ensures
        !chars_lt(a, a),
    decreases a.len(),
{
    if a.len() > 0 {
        lemma_chars_lt_irreflexive(a.skip(1));
    }
}

/// Two strings with neither strictly before the other are equal.
pub proof fn lemma_chars_lt_connected(a: Seq<char>, b: Seq<char>)
    requires
        !chars_lt(a, b),
        !chars_lt(b, a),
    ensures
        a == b,
    decreases a.len(),
{
    if a.len() == 0 || b.len() == 0 {
        assert(a =~= b);
    } else {
        if a[0] == b[0] {
            lemma_chars_lt_connected(a.skip(1), b.skip(1));
            assert(a =~= seq![a[0]] + a.skip(1));
            assert(b =~= seq![b[0]] + b.skip(1));
            assert(seq![a[0]] + a.skip(1) == seq![b[0]] + b.skip(1));
        } else {
            assert((a[0] as int) == (b[0] as int));
            lemma_char_code_injective(a[0], b[0]);
        }
    }
}

/// The order is transitive.
pub proof fn lemma_chars_lt_transitive(a: Seq<char>, b: Seq<char>, c: Seq<char>)
    requires
        chars_lt(a, b),
        chars_lt(b, c),
    ensures
        chars_lt(a, c),
    decreases a.len(),
{
    if c.len() == 0 || a.len() == 0 {
    } else if b.len() == 0 {
    } else {
        if a[0] == b[0] && b[0] == c[0] {
            lemma_chars_lt_transitive(a.skip(1), b.skip(1), c.skip(1));
        }
    }
}

/// At most one of `a < b`, `a == b`, `b < a` holds.
pub proof fn lemma_chars_lt_asymmetric(a: Seq<char>, b: Seq<char>)
    requires
        chars_lt(a, b),
    ensures
        !chars_lt(b, a),
        a != b,
    decreases a.len(),
{
    lemma_chars_lt_irreflexive(a);
    if a.len() > 0 && b.len() > 0 && a[0] == b[0] {
        lemma_chars_lt_asymmetric(a.skip(1), b.skip(1));
        if a == b {
            assert(a.skip(1) =~= b.skip(1));
        }
    }
}

/// Compares the suffixes `a[i..]` and `b[i..]`, one character at a time.
fn str_compare_from(a: &str, b: &str, i: usize, a_len: usize, b_len: usize) -> (r: StrOrder)
    requires
        i <= a_len,
        i <= b_len,
        a_len == a@.len(),
        b_len == b@.len(),
    ensures
        r == StrOrder::Equal <==> a@.skip(i as int) == b@.skip(i as int),
        r == StrOrder::Less <==> chars_lt(a@.skip(i as int), b@.skip(i as int)),
        r == StrOrder::Greater <==> chars_lt(b@.skip(i as int), a@.skip(i as int)),
    decreases a_len - i,
{
    proof {
        lemma_chars_lt_irreflexive(a@.skip(i as int));
    }
    if i == a_len && i == b_len {
        proof {
            assert(a@.skip(i as int) =~= b@.skip(i as int));
        }
        StrOrder::Equal
    } else if i == a_len {
        proof {
            assert(a@.skip(i as int).len() == 0);
            assert(b@.skip(i as int).len() > 0);
        }
        StrOrder::Less
    } else if i == b_len {
        StrOrder::Greater
    } else {
        let ca = a.get_char(i);
        let cb = b.get_char(i);
        proof {
            assert(a@.skip(i as int)[0] == a@[i as int]);
            assert(b@.skip(i as int)[0] == b@[i as int]);
        }
        if ca == cb {
            let r = str_compare_from(a, b, i + 1, a_len, b_len);
            proof {
                assert(a@.skip(i as int).skip(1) =~= a@.skip(i + 1));
                assert(b@.skip(i as int).skip(1) =~= b@.skip(i + 1));
                if r == StrOrder::Equal {
                    assert(a@.skip(i as int) =~= seq![a@[i as int]] + a@.skip(i + 1));
                    assert(b@.skip(i as int) =~= seq![b@[i as int]] + b@.skip(i + 1));
                }
            }
            r
        } else if (ca as u32) < (cb as u32) {
            proof {
                assert((ca as int) < (cb as int));
            }
            StrOrder::Less
        } else {
            proof {
                assert((cb as int) < (ca as int));
                if a@.skip(i as int) == b@.skip(i as int) {
                    assert(a@.skip(i as int)[0] == b@.skip(i as int)[0]);
                }
            }
            StrOrder::Greater
        }
    }
}

/// Compares two strings in code-point-wise lexicographic order.
pub fn str_compare(a: &str, b: &str) -> (r: StrOrder)
    ensures
        r == StrOrder::Equal <==> a@ == b@,
        r == StrOrder::Less <==> chars_lt(a@, b@),
        r == StrOrder::Greater <==> chars_lt(b@, a@),
{
    let a_len = a.unicode_len();
    let b_len = b.unicode_len();
    let r = str_compare_from(a, b, 0, a_len, b_len);
    proof {
        assert(a@.skip(0) =~= a@);
        assert(b@.skip(0) =~= b@);
    }
    r
}

/// True exactly when the two strings are equal.
pub fn str_eq(a: &str, b: &str) -> (r: bool)
    ensures
        r == (a@ == b@),
{
    matches!(str_compare(a, b), StrOrder::Equal)
}

} // verus!
