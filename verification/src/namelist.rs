//! Sorted lists of names.
//!
//! Role-groups arrive as an unordered mapping; every pass iterates them in
//! ascending name order so that the derived objects never churn. Sorting is
//! by repeated ordered insertion; a repeated name keeps a single slot.
use vstd::prelude::*;

use crate::strcmp::{
    chars_lt, lemma_chars_lt_asymmetric, lemma_chars_lt_connected, lemma_chars_lt_irreflexive,
    lemma_chars_lt_transitive, str_compare, StrOrder,
};

verus! {

/// The names are strictly ascending (hence unique).
pub open spec fn names_sorted(s: Seq<String>) -> bool {
    forall|i: int, j: int| 0 <= i < j < s.len() ==> chars_lt(#[trigger] s[i]@, #[trigger] s[j]@)
}

/// `v` occurs among the names of `s`.
pub open spec fn has_name(s: Seq<String>, v: Seq<char>) -> bool {
    exists|i: int| 0 <= i < s.len() && s[i]@ == v
}

/// `s` with `n` inserted at its ordered position; an equal name is replaced.
pub open spec fn insert_name(n: String, s: Seq<String>) -> Seq<String>
    decreases s.len(),
{
    if s.len() == 0 {
        seq![n]
    } else if chars_lt(n@, s[0]@) {
        seq![n] + s
    } else if n@ == s[0]@ {
        seq![n] + s.skip(1)
    } else {
        seq![s[0]] + insert_name(n, s.skip(1))
    }
}

/// Every name of `o` inserted into `s`, left to right.
pub open spec fn insert_all_names(s: Seq<String>, o: Seq<String>) -> Seq<String>
    decreases o.len(),
{
    if o.len() == 0 {
        s
    } else {
        insert_all_names(insert_name(o[0], s), o.skip(1))
    }
}

/// The names of `o`, in ascending order and without repetition.
pub open spec fn sort_names(o: Seq<String>) -> Seq<String> {
    insert_all_names(Seq::empty(), o)
}

/// Insertion keeps the names strictly ascending.
pub proof fn lemma_insert_name_sorted(n: String, s: Seq<String>)
    requires
        names_sorted(s),
    ensures
        names_sorted(insert_name(n, s)),
    decreases s.len(),
{
    let r = insert_name(n, s);
    if s.len() == 0 {
    } else if chars_lt(n@, s[0]@) {
        assert forall|i: int, j: int| 0 <= i < j < r.len() implies chars_lt(r[i]@, r[j]@) by {
            if i == 0 {
                if j > 1 {
                    lemma_chars_lt_transitive(n@, s[0]@, s[j - 1]@);
                }
            }
        }
    } else if n@ == s[0]@ {
        assert forall|i: int, j: int| 0 <= i < j < r.len() implies chars_lt(r[i]@, r[j]@) by {
            if i == 0 {
                assert(r[j] == s[j]);
            }
        }
    } else {
        if !chars_lt(s[0]@, n@) {
            lemma_chars_lt_connected(n@, s[0]@);
        }
        lemma_insert_name_sorted(n, s.skip(1));
        let t = insert_name(n, s.skip(1));
        assert forall|i: int, j: int| 0 <= i < j < r.len() implies chars_lt(r[i]@, r[j]@) by {
            if i == 0 {
                assert(r[j] == t[j - 1]);
                lemma_insert_name_has(n, s.skip(1), t[j - 1]@);
                assert(has_name(t, t[j - 1]@)) by {
                    assert(t[j - 1]@ == t[j - 1]@);
                }
                if t[j - 1]@ == n@ {
                } else {
                    let m = choose|m: int| 0 <= m < s.skip(1).len() && s.skip(1)[m]@ == t[j - 1]@;
                    assert(s.skip(1)[m] == s[m + 1]);
                    assert(chars_lt(s[0]@, s[m + 1]@));
                }
            } else {
                assert(r[i] == t[i - 1]);
                assert(r[j] == t[j - 1]);
            }
        }
    }
}

/// The names after an insertion are the new name and those of `s`.
pub proof fn lemma_insert_name_has(n: String, s: Seq<String>, v: Seq<char>)
    ensures
        has_name(insert_name(n, s), v) <==> (v == n@ || has_name(s, v)),
    decreases s.len(),
{
    let r = insert_name(n, s);
    if s.len() == 0 {
        assert(r[0] == n);
        if v == n@ {
            assert(has_name(r, v));
        }
        if has_name(r, v) {
            let i = choose|i: int| 0 <= i < r.len() && r[i]@ == v;
            assert(i == 0);
        }
    } else if chars_lt(n@, s[0]@) {
        if has_name(r, v) {
            let i = choose|i: int| 0 <= i < r.len() && r[i]@ == v;
            if i > 0 {
                assert(r[i] == s[i - 1]);
                assert(has_name(s, v));
            }
        }
        if v == n@ {
            assert(r[0] == n);
            assert(has_name(r, v));
        }
        if has_name(s, v) {
            let i = choose|i: int| 0 <= i < s.len() && s[i]@ == v;
            assert(r[i + 1] == s[i]);
            assert(has_name(r, v));
        }
    } else if n@ == s[0]@ {
        if has_name(r, v) {
            let i = choose|i: int| 0 <= i < r.len() && r[i]@ == v;
            if i > 0 {
                assert(r[i] == s.skip(1)[i - 1]);
                assert(s.skip(1)[i - 1] == s[i]);
                assert(has_name(s, v));
            }
        }
        if v == n@ {
            assert(r[0] == n);
            assert(has_name(r, v));
        }
        if has_name(s, v) {
            let i = choose|i: int| 0 <= i < s.len() && s[i]@ == v;
            if i == 0 {
                assert(r[0] == n);
                assert(has_name(r, v));
            } else {
                assert(r[i] == s.skip(1)[i - 1]);
                assert(s.skip(1)[i - 1] == s[i]);
                assert(has_name(r, v));
            }
        }
    } else {
        lemma_insert_name_has(n, s.skip(1), v);
        let t = insert_name(n, s.skip(1));
        if has_name(r, v) {
            let i = choose|i: int| 0 <= i < r.len() && r[i]@ == v;
            if i == 0 {
                assert(r[0] == s[0]);
                assert(has_name(s, v));
            } else {
                assert(r[i] == t[i - 1]);
                assert(has_name(t, v));
                if v != n@ {
                    let m = choose|m: int| 0 <= m < s.skip(1).len() && s.skip(1)[m]@ == v;
                    assert(s.skip(1)[m] == s[m + 1]);
                    assert(has_name(s, v));
                }
            }
        }
        if v == n@ {
            assert(has_name(t, v));
            let m = choose|m: int| 0 <= m < t.len() && t[m]@ == v;
            assert(r[m + 1] == t[m]);
            assert(has_name(r, v));
        }
        if has_name(s, v) {
            let i = choose|i: int| 0 <= i < s.len() && s[i]@ == v;
            if i == 0 {
                assert(r[0] == s[0]);
                assert(has_name(r, v));
            } else {
                assert(s.skip(1)[i - 1] == s[i]);
                assert(has_name(s.skip(1), v));
                assert(has_name(t, v));
                let m = choose|m: int| 0 <= m < t.len() && t[m]@ == v;
                assert(r[m + 1] == t[m]);
                assert(has_name(r, v));
            }
        }
    }
}

/// Sorting a batch keeps the names ascending.
pub proof fn lemma_insert_all_names_sorted(s: Seq<String>, o: Seq<String>)
    requires
        names_sorted(s),
    ensures
        names_sorted(insert_all_names(s, o)),
    decreases o.len(),
{
    if o.len() > 0 {
        lemma_insert_name_sorted(o[0], s);
        lemma_insert_all_names_sorted(insert_name(o[0], s), o.skip(1));
    }
}

/// The role-group iteration order: sorting always yields strictly
/// ascending names, so every pass walks the groups the same way.
pub proof fn lemma_sort_names_sorted(o: Seq<String>)
    ensures
        names_sorted(sort_names(o)),
{
    lemma_insert_all_names_sorted(Seq::empty(), o);
}

/// Sorting a batch keeps exactly the names of `s` and of the batch.
pub proof fn lemma_insert_all_names_has(s: Seq<String>, o: Seq<String>, v: Seq<char>)
    ensures
        has_name(insert_all_names(s, o), v) <==> (has_name(s, v) || has_name(o, v)),
    decreases o.len(),
{
    if o.len() == 0 {
        if has_name(o, v) {
            let i = choose|i: int| 0 <= i < o.len() && o[i]@ == v;
        }
    } else {
        lemma_insert_name_has(o[0], s, v);
        lemma_insert_all_names_has(insert_name(o[0], s), o.skip(1), v);
        if has_name(o.skip(1), v) {
            let i = choose|i: int| 0 <= i < o.skip(1).len() && o.skip(1)[i]@ == v;
            assert(o.skip(1)[i] == o[i + 1]);
            assert(has_name(o, v));
        }
        if v == o[0]@ {
            assert(has_name(o, v));
        }
        if has_name(o, v) && v != o[0]@ {
            let i = choose|i: int| 0 <= i < o.len() && o[i]@ == v;
            assert(i > 0);
            assert(o.skip(1)[i - 1] == o[i]);
            assert(has_name(o.skip(1), v));
        }
    }
}

/// Characterizes the insertion by the split position the executable code
/// finds: `i` is the first position whose name is not below `n`.
proof fn lemma_insert_name_split(n: String, s: Seq<String>, i: int)
    requires
        0 <= i <= s.len(),
        forall|j: int| 0 <= j < i ==> chars_lt(#[trigger] s[j]@, n@),
        i < s.len() ==> !chars_lt(s[i]@, n@),
    ensures
        i == s.len() ==> insert_name(n, s) == s + seq![n],
        i < s.len() && s[i]@ == n@ ==> insert_name(n, s) == s.take(i) + seq![n] + s.skip(i + 1),
        i < s.len() && s[i]@ != n@ ==> insert_name(n, s) == s.take(i) + seq![n] + s.skip(i),
    decreases s.len(),
{
    if s.len() == 0 {
        assert(insert_name(n, s) =~= s + seq![n]);
    } else if i == 0 {
        if chars_lt(n@, s[0]@) {
            assert(insert_name(n, s) =~= s.take(0) + seq![n] + s.skip(0));
        } else if n@ == s[0]@ {
            assert(insert_name(n, s) =~= s.take(0) + seq![n] + s.skip(1));
        } else {
            lemma_chars_lt_connected(n@, s[0]@);
        }
    } else {
        assert(chars_lt(s[0]@, n@));
        lemma_chars_lt_asymmetric(s[0]@, n@);
        let t = s.skip(1);
        assert(forall|j: int| 0 <= j < i - 1 ==> chars_lt(#[trigger] t[j]@, n@)) by {
            assert(forall|j: int| 0 <= j < i - 1 ==> t[j] == s[j + 1]);
        }
        lemma_insert_name_split(n, t, i - 1);
        if i == s.len() {
            assert(insert_name(n, s) =~= s + seq![n]);
        } else if s[i]@ == n@ {
            assert(t[i - 1]@ == n@);
            assert(insert_name(n, s) =~= s.take(i) + seq![n] + s.skip(i + 1));
        } else {
            assert(insert_name(n, s) =~= s.take(i) + seq![n] + s.skip(i));
        }
    }
}

/// Inserts one name into a vector at its ordered position.
pub fn name_insert(names: Vec<String>, n: String) -> (r: Vec<String>)
    ensures
        r@ == insert_name(n, names@),
{
    let ghost s = names@;
    let mut out: Vec<String> = Vec::new();
    let mut i: usize = 0;
    let len = names.len();
    while i < len && matches!(str_compare(names[i].as_str(), n.as_str()), StrOrder::Less)
        invariant
            len == s.len(),
            names@ == s,
            0 <= i <= len,
            out@ == s.take(i as int),
            forall|j: int| 0 <= j < i ==> chars_lt(#[trigger] s[j]@, n@),
        decreases len - i,
    {
        let item = names[i].clone();
        proof {
            assert(item == s[i as int]);
            assert(s.take(i as int).push(s[i as int]) =~= s.take(i + 1));
        }
        out.push(item);
        i = i + 1;
    }
    proof {
        lemma_insert_name_split(n, s, i as int);
    }
    if i == len {
        out.push(n);
        proof {
            assert(out@ =~= s + seq![n]);
        }
        out
    } else {
        let same = matches!(str_compare(names[i].as_str(), n.as_str()), StrOrder::Equal);
        let ghost nn = n;
        out.push(n);
        let from = if same {
            i + 1
        } else {
            i
        };
        let mut k = from;
        while k < len
            invariant
                len == s.len(),
                names@ == s,
                from <= len,
                from <= k <= len,
                out@ == s.take(i as int) + seq![nn] + s.subrange(from as int, k as int),
            decreases len - k,
        {
            let item = names[k].clone();
            proof {
                assert(item == s[k as int]);
                assert((out@).push(s[k as int]) =~= s.take(i as int) + seq![nn] + s.subrange(
                    from as int,
                    k + 1,
                ));
            }
            out.push(item);
            k = k + 1;
        }
        proof {
            assert(s.subrange(from as int, len as int) =~= s.skip(from as int));
            if same {
                assert(out@ =~= s.take(i as int) + seq![nn] + s.skip(i + 1));
            } else {
                assert(out@ =~= s.take(i as int) + seq![nn] + s.skip(i as int));
            }
        }
        out
    }
}

/// Sorts the given names; repeated names keep one slot.
pub fn names_sort(names: &Vec<String>) -> (r: Vec<String>)
    ensures
        r@ == sort_names(names@),
{
    let ghost o = names@;
    let mut acc: Vec<String> = Vec::new();
    let mut j: usize = 0;
    let len = names.len();
    proof {
        assert(o.skip(0) =~= o);
    }
    while j < len
        invariant
            len == o.len(),
            names@ == o,
            0 <= j <= len,
            sort_names(o) == insert_all_names(acc@, o.skip(j as int)),
        decreases len - j,
    {
        let n = names[j].clone();
        proof {
            assert(n == o[j as int]);
            assert(o.skip(j as int)[0] == o[j as int]);
            assert(o.skip(j as int).skip(1) =~= o.skip(j + 1));
        }
        acc = name_insert(acc, n);
        j = j + 1;
    }
    proof {
        assert(o.skip(len as int) =~= Seq::<String>::empty());
    }
    acc
}

} // verus!
