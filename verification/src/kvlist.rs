//! Key/value property lists kept in ascending key order.
//!
//! The resolved runtime properties of a role-group, and the data entries of
//! the synthesized ConfigMap, are association lists of strings. Keeping them
//! strictly sorted by key makes every derived object a pure function of its
//! inputs, so repeated synthesis yields identical objects.
use vstd::prelude::*;

use crate::strcmp::{
    chars_lt, lemma_chars_lt_asymmetric, lemma_chars_lt_connected, lemma_chars_lt_irreflexive,
    str_compare, StrOrder,
};

verus! {

/// The view of one key/value pair.
pub open spec fn pair_view(e: (String, String)) -> (Seq<char>, Seq<char>) {
    (e.0@, e.1@)
}

/// The views of a list of key/value pairs.
pub open spec fn pairs_view(s: Seq<(String, String)>) -> Seq<(Seq<char>, Seq<char>)> {
    s.map_values(|e: (String, String)| pair_view(e))
}

/// The keys are strictly ascending (hence unique).
pub open spec fn kv_sorted(s: Seq<(String, String)>) -> bool {
    forall|i: int, j: int| 0 <= i < j < s.len() ==> chars_lt(#[trigger] s[i].0@, #[trigger] s[j].0@)
}

/// The association list as a map from key to value; on a duplicated key the
/// earliest entry wins (sorted lists have no duplicates).
pub open spec fn kv_map(s: Seq<(String, String)>) -> Map<Seq<char>, Seq<char>>
    decreases s.len(),
{
    if s.len() == 0 {
        Map::empty()
    } else {
        kv_map(s.skip(1)).insert(s[0].0@, s[0].1@)
    }
}

/// `s` with `e` inserted at its key's ordered position; an entry whose key
/// equals `e`'s is replaced.
pub open spec fn insert_sorted(e: (String, String), s: Seq<(String, String)>) -> Seq<
    (String, String),
>
    decreases s.len(),
{
    if s.len() == 0 {
        seq![e]
    } else if chars_lt(e.0@, s[0].0@) {
        seq![e] + s
    } else if e.0@ == s[0].0@ {
        seq![e] + s.skip(1)
    } else {
        seq![s[0]] + insert_sorted(e, s.skip(1))
    }
}

/// Every entry of `o`, upserted into `s` from left to right.
pub open spec fn upsert_all(s: Seq<(String, String)>, o: Seq<(String, String)>) -> Seq<
    (String, String),
>
    decreases o.len(),
{
    if o.len() == 0 {
        s
    } else {
        upsert_all(insert_sorted(o[0], s), o.skip(1))
    }
}

/// Insertion keeps the keys strictly ascending.
pub proof fn lemma_insert_sorted_sorted(e: (String, String), s: Seq<(String, String)>)
    requires
        kv_sorted(s),
    ensures
        kv_sorted(insert_sorted(e, s)),
    decreases s.len(),
{
    let r = insert_sorted(e, s);
    if s.len() == 0 {
    } else if chars_lt(e.0@, s[0].0@) {
        assert forall|i: int, j: int| 0 <= i < j < r.len() implies chars_lt(r[i].0@, r[j].0@) by {
            if i == 0 {
                if j > 1 {
                    crate::strcmp::lemma_chars_lt_transitive(e.0@, s[0].0@, s[j - 1].0@);
                }
            }
        }
    } else if e.0@ == s[0].0@ {
        assert forall|i: int, j: int| 0 <= i < j < r.len() implies chars_lt(r[i].0@, r[j].0@) by {
            if i == 0 {
                assert(r[j] == s[j]);
            }
        }
    } else {
        lemma_chars_lt_connected_keys(e.0@, s[0].0@);
        lemma_insert_sorted_sorted(e, s.skip(1));
        lemma_insert_sorted_keys(e, s.skip(1));
        let t = insert_sorted(e, s.skip(1));
        assert forall|i: int, j: int| 0 <= i < j < r.len() implies chars_lt(r[i].0@, r[j].0@) by {
            if i == 0 {
                assert(r[j] == t[j - 1]);
                assert(t[j - 1].0@ == e.0@ || exists|m: int|
                    0 <= m < s.skip(1).len() && s.skip(1)[m].0@ == t[j - 1].0@);
                if t[j - 1].0@ == e.0@ {
                } else {
                    let m = choose|m: int|
                        0 <= m < s.skip(1).len() && s.skip(1)[m].0@ == t[j - 1].0@;
                    assert(s.skip(1)[m] == s[m + 1]);
                    assert(chars_lt(s[0].0@, s[m + 1].0@));
                }
            } else {
                assert(r[i] == t[i - 1]);
                assert(r[j] == t[j - 1]);
            }
        }
    }
}

/// From two strings neither equal nor in order, the reverse order follows.
proof fn lemma_chars_lt_connected_keys(a: Seq<char>, b: Seq<char>)
    requires
        !chars_lt(a, b),
        a != b,
    ensures
        chars_lt(b, a),
{
    if !chars_lt(b, a) {
        lemma_chars_lt_connected(a, b);
    }
}

/// Every key of the insertion result is the new key or a key of `s`.
pub proof fn lemma_insert_sorted_keys(e: (String, String), s: Seq<(String, String)>)
    ensures
        forall|i: int|
            0 <= i < insert_sorted(e, s).len() ==> (#[trigger] insert_sorted(e, s)[i].0@ == e.0@
                || exists|j: int| 0 <= j < s.len() && s[j].0@ == insert_sorted(e, s)[i].0@),
    decreases s.len(),
{
    let r = insert_sorted(e, s);
    if s.len() == 0 {
    } else if chars_lt(e.0@, s[0].0@) {
        assert forall|i: int| 0 <= i < r.len() implies (#[trigger] r[i].0@ == e.0@ || exists|j: int|
            0 <= j < s.len() && s[j].0@ == r[i].0@) by {
            if i > 0 {
                assert(s[i - 1].0@ == r[i].0@);
            }
        }
    } else if e.0@ == s[0].0@ {
        assert forall|i: int| 0 <= i < r.len() implies (#[trigger] r[i].0@ == e.0@ || exists|j: int|
            0 <= j < s.len() && s[j].0@ == r[i].0@) by {
            if i > 0 {
                assert(s[i] == s.skip(1)[i - 1]);
                assert(s[i].0@ == r[i].0@);
            }
        }
    } else {
        lemma_insert_sorted_keys(e, s.skip(1));
        let t = insert_sorted(e, s.skip(1));
        assert forall|i: int| 0 <= i < r.len() implies (#[trigger] r[i].0@ == e.0@ || exists|j: int|
            0 <= j < s.len() && s[j].0@ == r[i].0@) by {
            if i == 0 {
                assert(s[0].0@ == r[0].0@);
            } else {
                assert(r[i] == t[i - 1]);
                if t[i - 1].0@ == e.0@ {
                } else {
                    let m = choose|m: int|
                        0 <= m < s.skip(1).len() && s.skip(1)[m].0@ == t[i - 1].0@;
                    assert(s[m + 1].0@ == r[i].0@);
                }
            }
        }
    }
}

/// Insertion acts on the association map as a map insertion.
pub proof fn lemma_insert_sorted_map(e: (String, String), s: Seq<(String, String)>)
    ensures
        kv_map(insert_sorted(e, s)) == kv_map(s).insert(e.0@, e.1@),
    decreases s.len(),
{
    let r = insert_sorted(e, s);
    if s.len() == 0 {
        assert(r =~= seq![e]);
        assert(r[0] == e);
        assert(kv_map(r) == kv_map(r.skip(1)).insert(e.0@, e.1@));
        assert(kv_map(r.skip(1)) =~= Map::<Seq<char>, Seq<char>>::empty());
        assert(kv_map(r) =~= kv_map(s).insert(e.0@, e.1@));
    } else if chars_lt(e.0@, s[0].0@) {
        assert(r.skip(1) =~= s);
        assert(kv_map(r) =~= kv_map(s).insert(e.0@, e.1@));
    } else if e.0@ == s[0].0@ {
        assert(r.skip(1) =~= s.skip(1));
        assert(kv_map(r) == kv_map(s.skip(1)).insert(e.0@, e.1@));
        assert(kv_map(s) == kv_map(s.skip(1)).insert(s[0].0@, s[0].1@));
        assert(kv_map(s.skip(1)).insert(s[0].0@, s[0].1@).insert(e.0@, e.1@) =~= kv_map(
            s.skip(1),
        ).insert(e.0@, e.1@));
        assert(kv_map(r) =~= kv_map(s).insert(e.0@, e.1@));
    } else {
        lemma_insert_sorted_map(e, s.skip(1));
        assert(r[0] == s[0]);
        assert(r.skip(1) =~= insert_sorted(e, s.skip(1)));
        assert(kv_map(r) == kv_map(s.skip(1)).insert(e.0@, e.1@).insert(s[0].0@, s[0].1@));
        assert(kv_map(s).insert(e.0@, e.1@) == kv_map(s.skip(1)).insert(s[0].0@, s[0].1@).insert(
            e.0@,
            e.1@,
        ));
        assert(kv_map(r) =~= kv_map(s).insert(e.0@, e.1@));
    }
}

/// Characterizes the insertion result by the split position the executable
/// code finds: `i` is the first position whose key is not below `e`'s.
proof fn lemma_insert_sorted_split(e: (String, String), s: Seq<(String, String)>, i: int)
    requires
        0 <= i <= s.len(),
        forall|j: int| 0 <= j < i ==> chars_lt(#[trigger] s[j].0@, e.0@),
        i < s.len() ==> !chars_lt(s[i].0@, e.0@),
    ensures
        i == s.len() ==> insert_sorted(e, s) == s + seq![e],
        i < s.len() && s[i].0@ == e.0@ ==> insert_sorted(e, s) == s.take(i) + seq![e] + s.skip(
            i + 1,
        ),
        i < s.len() && s[i].0@ != e.0@ ==> insert_sorted(e, s) == s.take(i) + seq![e] + s.skip(i),
    decreases s.len(),
{
    if s.len() == 0 {
        assert(insert_sorted(e, s) =~= s + seq![e]);
    } else if i == 0 {
        if chars_lt(e.0@, s[0].0@) {
            assert(insert_sorted(e, s) =~= s.take(0) + seq![e] + s.skip(0));
        } else if e.0@ == s[0].0@ {
            assert(insert_sorted(e, s) =~= s.take(0) + seq![e] + s.skip(1));
        } else {
            lemma_chars_lt_connected_keys(e.0@, s[0].0@);
        }
    } else {
        assert(chars_lt(s[0].0@, e.0@));
        lemma_chars_lt_irreflexive(s[0].0@);
        lemma_chars_lt_asymmetric(s[0].0@, e.0@);
        assert(!chars_lt(e.0@, s[0].0@));
        assert(e.0@ != s[0].0@);
        let t = s.skip(1);
        assert(forall|j: int| 0 <= j < i - 1 ==> chars_lt(#[trigger] t[j].0@, e.0@)) by {
            assert(forall|j: int| 0 <= j < i - 1 ==> t[j] == s[j + 1]);
        }
        lemma_insert_sorted_split(e, t, i - 1);
        if i == s.len() {
            assert(insert_sorted(e, s) =~= s + seq![e]);
        } else if s[i].0@ == e.0@ {
            assert(t[i - 1].0@ == e.0@);
            assert(insert_sorted(e, s) =~= s.take(i) + seq![e] + s.skip(i + 1));
        } else {
            assert(insert_sorted(e, s) =~= s.take(i) + seq![e] + s.skip(i));
        }
    }
}

/// Upserts one entry into an association list held as a vector, at the
/// ordered position of its key.
pub fn kv_upsert(entries: Vec<(String, String)>, key: String, value: String) -> (r: Vec<
    (String, String),
>)
    ensures
        r@ == insert_sorted((key, value), entries@),
{
    let ghost e = (key, value);
    let ghost s = entries@;
    let mut out: Vec<(String, String)> = Vec::new();
    let mut i: usize = 0;
    let n = entries.len();
    while i < n && matches!(str_compare(entries[i].0.as_str(), key.as_str()), StrOrder::Less)
        invariant
            n == s.len(),
            entries@ == s,
            0 <= i <= n,
            out@ == s.take(i as int),
            forall|j: int| 0 <= j < i ==> chars_lt(#[trigger] s[j].0@, key@),
        decreases n - i,
    {
        let pair = (entries[i].0.clone(), entries[i].1.clone());
        proof {
            assert(pair == s[i as int]);
            assert(s.take(i as int).push(s[i as int]) =~= s.take(i + 1));
        }
        out.push(pair);
        i = i + 1;
    }
    proof {
        lemma_insert_sorted_split(e, s, i as int);
    }
    if i == n {
        out.push((key, value));
        proof {
            assert(out@ =~= s + seq![e]);
        }
        out
    } else {
        let same = matches!(str_compare(entries[i].0.as_str(), key.as_str()), StrOrder::Equal);
        out.push((key, value));
        let from = if same {
            i + 1
        } else {
            i
        };
        let mut k = from;
        while k < n
            invariant
                n == s.len(),
                entries@ == s,
                from <= n,
                from <= k <= n,
                out@ == s.take(i as int) + seq![e] + s.subrange(from as int, k as int),
            decreases n - k,
        {
            let pair = (entries[k].0.clone(), entries[k].1.clone());
            proof {
                assert(pair == s[k as int]);
                assert((s.take(i as int) + seq![e] + s.subrange(from as int, k as int)).push(
                    s[k as int],
                ) =~= s.take(i as int) + seq![e] + s.subrange(from as int, k + 1));
            }
            out.push(pair);
            k = k + 1;
        }
        proof {
            assert(s.subrange(from as int, n as int) =~= s.skip(from as int));
            if same {
                assert(out@ =~= s.take(i as int) + seq![e] + s.skip(i + 1));
            } else {
                assert(out@ =~= s.take(i as int) + seq![e] + s.skip(i as int));
            }
        }
        out
    }
}

/// Upserts every entry of `overrides`, in order, into `base`.
pub fn kv_upsert_all(base: Vec<(String, String)>, overrides: &Vec<(String, String)>) -> (r: Vec<
    (String, String),
>)
    ensures
        r@ == upsert_all(base@, overrides@),
{
    let ghost b = base@;
    let ghost o = overrides@;
    let mut acc = base;
    let mut j: usize = 0;
    let n = overrides.len();
    proof {
        assert(o.skip(0) =~= o);
    }
    while j < n
        invariant
            n == o.len(),
            overrides@ == o,
            0 <= j <= n,
            upsert_all(b, o) == upsert_all(acc@, o.skip(j as int)),
        decreases n - j,
    {
        let key = overrides[j].0.clone();
        let value = overrides[j].1.clone();
        proof {
            assert((key, value) == o[j as int]);
            assert(o.skip(j as int)[0] == o[j as int]);
            assert(o.skip(j as int).skip(1) =~= o.skip(j + 1));
        }
        acc = kv_upsert(acc, key, value);
        j = j + 1;
    }
    proof {
        assert(o.skip(n as int) =~= Seq::<(String, String)>::empty());
    }
    acc
}

/// Upserting a batch keeps the keys strictly ascending.
pub proof fn lemma_upsert_all_sorted(s: Seq<(String, String)>, o: Seq<(String, String)>)
    requires
        kv_sorted(s),
    ensures
        kv_sorted(upsert_all(s, o)),
    decreases o.len(),
{
    if o.len() > 0 {
        lemma_insert_sorted_sorted(o[0], s);
        lemma_upsert_all_sorted(insert_sorted(o[0], s), o.skip(1));
    }
}

/// Looks a key up; the result is exactly the association map's entry.
pub fn kv_get<'a>(entries: &'a Vec<(String, String)>, key: &str) -> (r: Option<&'a String>)
    ensures
        match r {
            Some(v) => kv_map(entries@).contains_key(key@) && v@ == kv_map(entries@)[key@],
            None => !kv_map(entries@).contains_key(key@),
        },
{
    let ghost s = entries@;
    let mut i: usize = 0;
    let n = entries.len();
    proof {
        assert(s.skip(0) =~= s);
    }
    while i < n
        invariant
            n == s.len(),
            entries@ == s,
            0 <= i <= n,
            kv_map(s).contains_key(key@) == kv_map(s.skip(i as int)).contains_key(key@),
            kv_map(s).contains_key(key@) ==> kv_map(s)[key@] == kv_map(s.skip(i as int))[key@],
        decreases n - i,
    {
        proof {
            assert(s.skip(i as int)[0] == s[i as int]);
            assert(s.skip(i as int).skip(1) =~= s.skip(i + 1));
        }
        if str_compare(entries[i].0.as_str(), key) == StrOrder::Equal {
            return Some(&entries[i].1);
        }
        i = i + 1;
    }
    proof {
        assert(s.skip(n as int) =~= Seq::<(String, String)>::empty());
    }
    None
}


/// Upserts one literal-keyed property, keeping the list sorted, and acts
/// on the association map as a plain insertion.
pub fn kv_put(entries: Vec<(String, String)>, key: &str, value: String) -> (r: Vec<
    (String, String),
>)
    requires
        kv_sorted(entries@),
    ensures
        kv_sorted(r@),
        kv_map(r@) == kv_map(entries@).insert(key@, value@),
{
    let ghost prev = entries@;
    let k = String::from_str(key);
    let ghost e = (k, value);
    let r = kv_upsert(entries, k, value);
    proof {
        lemma_insert_sorted_sorted(e, prev);
        lemma_insert_sorted_map(e, prev);
    }
    r
}

/// Ordered insertion, stated on views alone.
pub open spec fn insert_sorted_v(
    e: (Seq<char>, Seq<char>),
    s: Seq<(Seq<char>, Seq<char>)>,
) -> Seq<(Seq<char>, Seq<char>)>
    decreases s.len(),
{
    if s.len() == 0 {
        seq![e]
    } else if chars_lt(e.0, s[0].0) {
        seq![e] + s
    } else if e.0 == s[0].0 {
        seq![e] + s.skip(1)
    } else {
        seq![s[0]] + insert_sorted_v(e, s.skip(1))
    }
}

/// Batch upsert, stated on views alone.
pub open spec fn upsert_all_v(
    s: Seq<(Seq<char>, Seq<char>)>,
    o: Seq<(Seq<char>, Seq<char>)>,
) -> Seq<(Seq<char>, Seq<char>)>
    decreases o.len(),
{
    if o.len() == 0 {
        s
    } else {
        upsert_all_v(insert_sorted_v(o[0], s), o.skip(1))
    }
}

/// Insertion commutes with taking views.
pub proof fn lemma_insert_sorted_view(e: (String, String), s: Seq<(String, String)>)
    ensures
        pairs_view(insert_sorted(e, s)) == insert_sorted_v(pair_view(e), pairs_view(s)),
    decreases s.len(),
{
    let vs = pairs_view(s);
    if s.len() == 0 {
        assert(pairs_view(insert_sorted(e, s)) =~= insert_sorted_v(pair_view(e), vs));
    } else if chars_lt(e.0@, s[0].0@) {
        assert(vs[0] == pair_view(s[0]));
        assert(pairs_view(seq![e] + s) =~= seq![pair_view(e)] + vs);
    } else if e.0@ == s[0].0@ {
        assert(vs[0] == pair_view(s[0]));
        assert(pairs_view(s.skip(1)) =~= vs.skip(1));
        assert(pairs_view(seq![e] + s.skip(1)) =~= seq![pair_view(e)] + vs.skip(1));
    } else {
        assert(vs[0] == pair_view(s[0]));
        lemma_insert_sorted_view(e, s.skip(1));
        assert(pairs_view(s.skip(1)) =~= vs.skip(1));
        assert(pairs_view(seq![s[0]] + insert_sorted(e, s.skip(1))) =~= seq![pair_view(s[0])]
            + pairs_view(insert_sorted(e, s.skip(1))));
        assert(insert_sorted_v(pair_view(e), vs) == seq![vs[0]] + insert_sorted_v(
            pair_view(e),
            vs.skip(1),
        ));
    }
}

/// Batch upsert commutes with taking views.
pub proof fn lemma_upsert_all_view(s: Seq<(String, String)>, o: Seq<(String, String)>)
    ensures
        pairs_view(upsert_all(s, o)) == upsert_all_v(pairs_view(s), pairs_view(o)),
    decreases o.len(),
{
    if o.len() == 0 {
    } else {
        lemma_insert_sorted_view(o[0], s);
        lemma_upsert_all_view(insert_sorted(o[0], s), o.skip(1));
        assert(pairs_view(o)[0] == pair_view(o[0]));
        assert(pairs_view(o.skip(1)) =~= pairs_view(o).skip(1));
    }
}

/// The runtime property-file text of an association list: one `key=value`
/// line per entry, each closed by a newline, in list order.
pub open spec fn properties_text_v(s: Seq<(Seq<char>, Seq<char>)>) -> Seq<char>
    decreases s.len(),
{
    if s.len() == 0 {
        Seq::empty()
    } else {
        s[0].0 + "="@ + s[0].1 + "\n"@ + properties_text_v(s.skip(1))
    }
}

/// Serializes an association list into the runtime property-file format.
pub fn to_properties_text(entries: &Vec<(String, String)>) -> (r: String)
    ensures
        r@ == properties_text_v(pairs_view(entries@)),
{
    let ghost s = pairs_view(entries@);
    let mut out = String::new();
    let mut i: usize = 0;
    let n = entries.len();
    proof {
        assert(s.skip(0) =~= s);
        assert(out@ + properties_text_v(s) =~= properties_text_v(s));
    }
    while i < n
        invariant
            n == entries@.len(),
            s == pairs_view(entries@),
            s.len() == n,
            0 <= i <= n,
            out@ + properties_text_v(s.skip(i as int)) == properties_text_v(s),
        decreases n - i,
    {
        proof {
            assert(s.skip(i as int)[0] == s[i as int]);
            assert(s[i as int] == pair_view(entries@[i as int]));
            assert(s.skip(i as int).skip(1) =~= s.skip(i + 1));
        }
        out.append(entries[i].0.as_str());
        out.append("=");
        out.append(entries[i].1.as_str());
        out.append("\n");
        proof {
            assert(out@ + properties_text_v(s.skip(i + 1)) =~= properties_text_v(s)) by {
                assert(properties_text_v(s.skip(i as int)) == s[i as int].0 + "="@ + s[i as int].1
                    + "\n"@ + properties_text_v(s.skip(i + 1)));
            }
        }
        i = i + 1;
    }
    proof {
        assert(s.skip(n as int) =~= Seq::<(Seq<char>, Seq<char>)>::empty());
        assert(out@ + Seq::<char>::empty() =~= out@);
    }
    out
}

/// A key is in the association map exactly when some entry carries it.
pub proof fn lemma_kv_map_contains(s: Seq<(String, String)>, k: Seq<char>)
    ensures
        kv_map(s).contains_key(k) <==> exists|i: int| 0 <= i < s.len() && s[i].0@ == k,
    decreases s.len(),
{
    if s.len() == 0 {
        if exists|i: int| 0 <= i < s.len() && s[i].0@ == k {
            let i = choose|i: int| 0 <= i < s.len() && s[i].0@ == k;
        }
    } else {
        lemma_kv_map_contains(s.skip(1), k);
        if kv_map(s).contains_key(k) {
            if s[0].0@ != k {
                let i = choose|i: int| 0 <= i < s.skip(1).len() && s.skip(1)[i].0@ == k;
                assert(s.skip(1)[i] == s[i + 1]);
            }
        }
        if exists|i: int| 0 <= i < s.len() && s[i].0@ == k {
            let i = choose|i: int| 0 <= i < s.len() && s[i].0@ == k;
            if i > 0 {
                assert(s.skip(1)[i - 1] == s[i]);
                assert(kv_map(s.skip(1)).contains_key(k));
            }
        }
    }
}

/// Two sorted association lists with the same map hold the same entries:
/// the serialized object is determined by its contents alone.
pub proof fn lemma_sorted_map_unique(a: Seq<(String, String)>, b: Seq<(String, String)>)
    requires
        kv_sorted(a),
        kv_sorted(b),
        kv_map(a) == kv_map(b),
    ensures
        pairs_view(a) == pairs_view(b),
    decreases a.len(),
{
    if a.len() == 0 {
        if b.len() > 0 {
            lemma_kv_map_contains(a, b[0].0@);
            lemma_kv_map_contains(b, b[0].0@);
            assert(kv_map(b).contains_key(b[0].0@));
        }
        assert(pairs_view(a) =~= pairs_view(b));
    } else if b.len() == 0 {
        lemma_kv_map_contains(a, a[0].0@);
        lemma_kv_map_contains(b, a[0].0@);
        assert(kv_map(a).contains_key(a[0].0@));
    } else {
        // The head keys are both the unique minimum of the shared domain.
        lemma_kv_map_contains(a, b[0].0@);
        lemma_kv_map_contains(b, b[0].0@);
        lemma_kv_map_contains(a, a[0].0@);
        lemma_kv_map_contains(b, a[0].0@);
        assert(kv_map(a).contains_key(b[0].0@));
        let i = choose|i: int| 0 <= i < a.len() && a[i].0@ == b[0].0@;
        let j = choose|j: int| 0 <= j < b.len() && b[j].0@ == a[0].0@;
        if a[0].0@ != b[0].0@ {
            assert(i > 0 || j > 0);
            if i > 0 {
                assert(chars_lt(a[0].0@, a[i].0@));
                assert(j > 0);
                assert(chars_lt(b[0].0@, b[j].0@));
                crate::strcmp::lemma_chars_lt_transitive(a[0].0@, a[i].0@, b[j].0@);
                lemma_chars_lt_irreflexive(a[0].0@);
            } else {
                assert(j > 0);
                assert(chars_lt(b[0].0@, b[j].0@));
                assert(b[j].0@ == a[0].0@);
                assert(a[i].0@ == b[0].0@);
                assert(i == 0);
            }
        }
        assert(a[0].0@ == b[0].0@);
        // The head values agree: the head entry wins in its own map.
        assert(kv_map(a)[a[0].0@] == a[0].1@);
        assert(kv_map(b)[b[0].0@] == b[0].1@);
        assert(a[0].1@ == b[0].1@);
        // The tails carry the same map: the head key occurs nowhere else.
        assert forall|k: Seq<char>| true implies #[trigger] kv_map(a.skip(1)).contains_key(k)
            == kv_map(b.skip(1)).contains_key(k) && (kv_map(a.skip(1)).contains_key(k)
            ==> kv_map(a.skip(1))[k] == kv_map(b.skip(1))[k]) by {
            lemma_kv_map_contains(a.skip(1), k);
            lemma_kv_map_contains(b.skip(1), k);
            if k == a[0].0@ {
                if exists|m: int| 0 <= m < a.skip(1).len() && a.skip(1)[m].0@ == k {
                    let m = choose|m: int| 0 <= m < a.skip(1).len() && a.skip(1)[m].0@ == k;
                    assert(a.skip(1)[m] == a[m + 1]);
                    assert(chars_lt(a[0].0@, a[m + 1].0@));
                    lemma_chars_lt_irreflexive(a[0].0@);
                }
                if exists|m: int| 0 <= m < b.skip(1).len() && b.skip(1)[m].0@ == k {
                    let m = choose|m: int| 0 <= m < b.skip(1).len() && b.skip(1)[m].0@ == k;
                    assert(b.skip(1)[m] == b[m + 1]);
                    assert(chars_lt(b[0].0@, b[m + 1].0@));
                    lemma_chars_lt_irreflexive(b[0].0@);
                }
            } else {
                if kv_map(a.skip(1)).contains_key(k) {
                    assert(kv_map(a)[k] == kv_map(a.skip(1))[k]);
                    lemma_kv_map_contains(a, k);
                    lemma_kv_map_contains(b, k);
                    let m = choose|m: int| 0 <= m < b.len() && b[m].0@ == k;
                    assert(m > 0);
                    assert(b.skip(1)[m - 1] == b[m]);
                    assert(kv_map(b.skip(1)).contains_key(k));
                    assert(kv_map(b)[k] == kv_map(b.skip(1))[k]);
                }
                if kv_map(b.skip(1)).contains_key(k) {
                    assert(kv_map(b)[k] == kv_map(b.skip(1))[k]);
                    lemma_kv_map_contains(a, k);
                    lemma_kv_map_contains(b, k);
                    let m = choose|m: int| 0 <= m < a.len() && a[m].0@ == k;
                    assert(m > 0);
                    assert(a.skip(1)[m - 1] == a[m]);
                    assert(kv_map(a.skip(1)).contains_key(k));
                    assert(kv_map(a)[k] == kv_map(a.skip(1))[k]);
                }
            }
        }
        assert(kv_map(a.skip(1)) =~= kv_map(b.skip(1)));
        assert(kv_sorted(a.skip(1))) by {
            assert(forall|m: int, l: int|
                0 <= m < l < a.skip(1).len() ==> a.skip(1)[m] == a[m + 1] && a.skip(1)[l] == a[l
                    + 1]);
        }
        assert(kv_sorted(b.skip(1))) by {
            assert(forall|m: int, l: int|
                0 <= m < l < b.skip(1).len() ==> b.skip(1)[m] == b[m + 1] && b.skip(1)[l] == b[l
                    + 1]);
        }
        lemma_sorted_map_unique(a.skip(1), b.skip(1));
        assert(a.len() == b.len()) by {
            assert(pairs_view(a.skip(1)).len() == a.len() - 1);
            assert(pairs_view(b.skip(1)).len() == b.len() - 1);
        }
        assert forall|m: int| 0 <= m < a.len() implies #[trigger] pairs_view(a)[m] == pairs_view(
            b,
        )[m] by {
            assert(pairs_view(a)[m] == pair_view(a[m]));
            assert(pairs_view(b)[m] == pair_view(b[m]));
            if m == 0 {
                assert(pair_view(a[0]) == pair_view(b[0]));
            } else {
                assert(a.skip(1)[m - 1] == a[m]);
                assert(b.skip(1)[m - 1] == b[m]);
                assert(pairs_view(a.skip(1))[m - 1] == pair_view(a.skip(1)[m - 1]));
                assert(pairs_view(b.skip(1))[m - 1] == pair_view(b.skip(1)[m - 1]));
            }
        }
        assert(pairs_view(a) =~= pairs_view(b));
    }
}
} // verus!
