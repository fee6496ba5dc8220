//! The attribute store of an element: an ordered list of key/value
//! pairs with set-or-overwrite updates, so that keys stay unique, plus
//! its rendering as ` key="value"` markup.
//!
//! One key, `text-content`, is reserved: it is never rendered as an
//! attribute and instead carries the element's textual payload.

use vstd::prelude::*;

verus! {

/// The mathematical view of an attribute list: the keys and values as
/// character sequences, in insertion order.
pub open spec fn pairs_view(s: Seq<(String, String)>) -> Seq<(Seq<char>, Seq<char>)> {
    s.map_values(|p: (String, String)| (p.0@, p.1@))
}

/// The reserved key whose value is the element's text payload.
pub open spec fn text_key() -> Seq<char> {
    "text-content"@
}

/// Index of the first pair whose key is `k`, or `-1` when no pair has
/// that key.
pub open spec fn key_index(a: Seq<(Seq<char>, Seq<char>)>, k: Seq<char>) -> int
    decreases a.len(),
{
    if a.len() == 0 {
        -1
    } else if a[0].0 == k {
        0
    } else {
        let r = key_index(a.drop_first(), k);
        if r < 0 {
            -1
        } else {
            r + 1
        }
    }
}

/// The value stored under key `k`, if any.
pub open spec fn get_key(a: Seq<(Seq<char>, Seq<char>)>, k: Seq<char>) -> Option<Seq<char>> {
    let i = key_index(a, k);
    if i < 0 {
        None
    } else {
        Some(a[i].1)
    }
}

/// Set-or-overwrite: replaces the value of an existing key in place,
/// else appends the new pair at the end.
pub open spec fn set_key(a: Seq<(Seq<char>, Seq<char>)>, k: Seq<char>, v: Seq<char>) -> Seq<
    (Seq<char>, Seq<char>),
> {
    let i = key_index(a, k);
    if i < 0 {
        a.push((k, v))
    } else {
        a.update(i, (k, v))
    }
}

/// Removes the pair with key `k`, leaving the list unchanged when the
/// key is absent.
pub open spec fn remove_key(a: Seq<(Seq<char>, Seq<char>)>, k: Seq<char>) -> Seq<
    (Seq<char>, Seq<char>),
> {
    let i = key_index(a, k);
    if i < 0 {
        a
    } else {
        a.remove(i)
    }
}

/// The markup of one attribute pair: ` key="value"`.
pub open spec fn attr_markup_one(p: (Seq<char>, Seq<char>)) -> Seq<char> {
    " "@ + p.0 + "=\""@ + p.1 + "\""@
}

/// The markup of the whole list, in order, with the reserved text key
/// left out.
pub open spec fn attrs_markup(a: Seq<(Seq<char>, Seq<char>)>) -> Seq<char>
    decreases a.len(),
{
    if a.len() == 0 {
        Seq::empty()
    } else {
        (if a[0].0 == text_key() {
            Seq::<char>::empty()
        } else {
            attr_markup_one(a[0])
        }) + attrs_markup(a.drop_first())
    }
}

/// Folds the list left to right carrying the text payload seen so far:
/// the value of the last pair under the reserved key wins.
pub open spec fn text_of_from(a: Seq<(Seq<char>, Seq<char>)>, cur: Seq<char>) -> Seq<char>
    decreases a.len(),
{
    if a.len() == 0 {
        cur
    } else {
        text_of_from(
            a.drop_first(),
            if a[0].0 == text_key() {
                a[0].1
            } else {
                cur
            },
        )
    }
}

/// The element's text payload: the value of the last pair under the
/// reserved key, or empty when there is none.
pub open spec fn text_of(a: Seq<(Seq<char>, Seq<char>)>) -> Seq<char> {
    text_of_from(a, Seq::empty())
}

/// All keys of the list are distinct: the shape every attribute list
/// built by set-or-overwrite updates keeps.
pub open spec fn keys_unique(a: Seq<(Seq<char>, Seq<char>)>) -> bool {
    forall|i: int, j: int| 0 <= i < j < a.len() ==> (#[trigger] a[i]).0 != (#[trigger] a[j]).0
}

/// A non-negative `key_index` is in range and points at a pair with
/// the key looked for.
pub proof fn lemma_key_index_range(a: Seq<(Seq<char>, Seq<char>)>, k: Seq<char>)
    ensures
        key_index(a, k) == -1 || (0 <= key_index(a, k) < a.len() && a[key_index(a, k)].0 == k),
    decreases a.len(),
{
    if a.len() > 0 && a[0].0 != k {
        lemma_key_index_range(a.drop_first(), k);
    }
}

/// A negative `key_index` means no pair has the key.
pub proof fn lemma_key_index_absent(a: Seq<(Seq<char>, Seq<char>)>, k: Seq<char>)
    requires
        key_index(a, k) == -1,
    ensures
        forall|i: int| 0 <= i < a.len() ==> (#[trigger] a[i]).0 != k,
    decreases a.len(),
{
    if a.len() > 0 {
        lemma_key_index_absent(a.drop_first(), k);
        assert forall|i: int| 0 <= i < a.len() implies (#[trigger] a[i]).0 != k by {
            if i > 0 {
                assert(a.drop_first()[i - 1] == a[i]);
            }
        }
    }
}

proof fn lemma_key_index_push_absent(
    a: Seq<(Seq<char>, Seq<char>)>,
    k: Seq<char>,
    p: (Seq<char>, Seq<char>),
)
    requires
        key_index(a, k) == -1,
        p.0 == k,
    ensures
        key_index(a.push(p), k) == a.len(),
    decreases a.len(),
{
    if a.len() == 0 {
        assert(a.push(p)[0] == p);
    } else {
        lemma_key_index_push_absent(a.drop_first(), k, p);
        assert(a.push(p)[0] == a[0]);
        assert(a.push(p).drop_first() =~= a.drop_first().push(p));
    }
}

proof fn lemma_key_index_push_other(
    a: Seq<(Seq<char>, Seq<char>)>,
    p: (Seq<char>, Seq<char>),
    k2: Seq<char>,
)
    requires
        p.0 != k2,
    ensures
        key_index(a.push(p), k2) == key_index(a, k2),
        key_index(a, k2) >= 0 ==> a.push(p)[key_index(a, k2)] == a[key_index(a, k2)],
    decreases a.len(),
{
    lemma_key_index_range(a, k2);
    if a.len() == 0 {
        assert(a.push(p)[0] == p);
        assert(a.push(p).drop_first() =~= Seq::<(Seq<char>, Seq<char>)>::empty());
        assert(key_index(a.push(p).drop_first(), k2) == -1);
        assert(key_index(a.push(p), k2) == -1);
        assert(key_index(a, k2) == -1);
    } else {
        lemma_key_index_push_other(a.drop_first(), p, k2);
        assert(a.push(p)[0] == a[0]);
        assert(a.push(p).drop_first() =~= a.drop_first().push(p));
        if a[0].0 == k2 {
            assert(key_index(a.push(p), k2) == 0);
        } else {
            assert(key_index(a.drop_first().push(p), k2) == key_index(a.drop_first(), k2));
            assert(key_index(a.push(p), k2) == key_index(a, k2));
        }
    }
}

proof fn lemma_key_index_update_first(
    a: Seq<(Seq<char>, Seq<char>)>,
    k: Seq<char>,
    p: (Seq<char>, Seq<char>),
)
    requires
        key_index(a, k) >= 0,
        p.0 == k,
    ensures
        key_index(a.update(key_index(a, k), p), k) == key_index(a, k),
    decreases a.len(),
{
    lemma_key_index_range(a, k);
    let i0 = key_index(a, k);
    if a[0].0 == k {
        assert(a.update(0, p)[0] == p);
    } else {
        lemma_key_index_update_first(a.drop_first(), k, p);
        assert(a.update(i0, p)[0] == a[0]);
        assert(a.update(i0, p).drop_first() =~= a.drop_first().update(i0 - 1, p));
    }
}

proof fn lemma_key_index_update_other(
    a: Seq<(Seq<char>, Seq<char>)>,
    i0: int,
    p: (Seq<char>, Seq<char>),
    k2: Seq<char>,
)
    requires
        0 <= i0 < a.len(),
        a[i0].0 != k2,
        p.0 != k2,
    ensures
        key_index(a.update(i0, p), k2) == key_index(a, k2),
        key_index(a, k2) >= 0 ==> a.update(i0, p)[key_index(a, k2)] == a[key_index(a, k2)],
    decreases a.len(),
{
    lemma_key_index_range(a, k2);
    if i0 == 0 {
        assert(a.update(0, p)[0] == p);
        assert(a.update(0, p).drop_first() =~= a.drop_first());
    } else {
        assert(a.update(i0, p)[0] == a[0]);
        assert(a.update(i0, p).drop_first() =~= a.drop_first().update(i0 - 1, p));
        assert(a.drop_first()[i0 - 1] == a[i0]);
        lemma_key_index_update_other(a.drop_first(), i0 - 1, p, k2);
    }
}

/// Last write wins: after a set, the key reads back as the value just
/// written.
pub proof fn lemma_set_key_get(a: Seq<(Seq<char>, Seq<char>)>, k: Seq<char>, v: Seq<char>)
    ensures
        get_key(set_key(a, k, v), k) == Some(v),
{
    lemma_key_index_range(a, k);
    let i0 = key_index(a, k);
    if i0 < 0 {
        lemma_key_index_push_absent(a, k, (k, v));
        assert(a.push((k, v))[a.len() as int] == (k, v));
    } else {
        lemma_key_index_update_first(a, k, (k, v));
        assert(a.update(i0, (k, v))[i0] == (k, v));
    }
}

/// A set leaves every other key unchanged.
pub proof fn lemma_set_key_other(
    a: Seq<(Seq<char>, Seq<char>)>,
    k: Seq<char>,
    v: Seq<char>,
    k2: Seq<char>,
)
    requires
        k2 != k,
    ensures
        get_key(set_key(a, k, v), k2) == get_key(a, k2),
{
    lemma_key_index_range(a, k);
    lemma_key_index_range(a, k2);
    let i0 = key_index(a, k);
    if i0 < 0 {
        lemma_key_index_push_other(a, (k, v), k2);
    } else {
        lemma_key_index_update_other(a, i0, (k, v), k2);
    }
}

/// A set keeps the keys distinct: overwriting reuses the slot of the
/// existing key, and a fresh key is appended only when absent.
pub proof fn lemma_set_key_unique(a: Seq<(Seq<char>, Seq<char>)>, k: Seq<char>, v: Seq<char>)
    requires
        keys_unique(a),
    ensures
        keys_unique(set_key(a, k, v)),
{
    lemma_key_index_range(a, k);
    let i0 = key_index(a, k);
    if i0 < 0 {
        lemma_key_index_absent(a, k);
        let b = a.push((k, v));
        assert forall|i: int, j: int|
            0 <= i < j < b.len() implies (#[trigger] b[i]).0 != (#[trigger] b[j]).0 by {
            if j < a.len() {
                assert(b[i] == a[i] && b[j] == a[j]);
            } else {
                assert(b[i] == a[i] && b[j] == (k, v));
            }
        }
    } else {
        let b = a.update(i0, (k, v));
        assert forall|i: int, j: int|
            0 <= i < j < b.len() implies (#[trigger] b[i]).0 != (#[trigger] b[j]).0 by {
            assert(a[i0].0 == k);
            if i == i0 {
                assert(b[j] == a[j] && a[j].0 != a[i0].0);
            } else if j == i0 {
                assert(b[i] == a[i] && a[i].0 != a[i0].0);
            } else {
                assert(b[i] == a[i] && b[j] == a[j]);
            }
        }
    }
}

/// A removal keeps the keys distinct.
pub proof fn lemma_remove_key_unique(a: Seq<(Seq<char>, Seq<char>)>, k: Seq<char>)
    requires
        keys_unique(a),
    ensures
        keys_unique(remove_key(a, k)),
{
    lemma_key_index_range(a, k);
    let i0 = key_index(a, k);
    if i0 >= 0 {
        let b = a.remove(i0);
        assert forall|i: int, j: int|
            0 <= i < j < b.len() implies (#[trigger] b[i]).0 != (#[trigger] b[j]).0 by {
            let i1 = if i < i0 {
                i
            } else {
                i + 1
            };
            let j1 = if j < i0 {
                j
            } else {
                j + 1
            };
            assert(b[i] == a[i1] && b[j] == a[j1]);
        }
    }
}

/// Relates a scan that found no match before `i` to `key_index` of the
/// whole list.
proof fn lemma_key_index_skip(a: Seq<(Seq<char>, Seq<char>)>, k: Seq<char>, i: int)
    requires
        0 <= i <= a.len(),
        forall|j: int| 0 <= j < i ==> a[j].0 != k,
    ensures
        key_index(a, k) == {
            let r = key_index(a.skip(i), k);
            if r < 0 {
                -1int
            } else {
                i + r
            }
        },
    decreases i,
{
    if i == 0 {
        assert(a.skip(0) =~= a);
    } else {
        lemma_key_index_skip(a, k, i - 1);
        let s = a.skip(i - 1);
        assert(s[0] == a[i - 1]);
        assert(s.drop_first() =~= a.skip(i));
        assert(key_index(s, k) == {
            let r = key_index(a.skip(i), k);
            if r < 0 {
                -1int
            } else {
                1 + r
            }
        });
    }
}

/// Looks a key up, returning a borrow of the stored value.
pub(crate) fn attr_get<'a>(m: &'a Vec<(String, String)>, key: &str) -> (r: Option<&'a String>)
    ensures
        match r {
            Some(v) => get_key(pairs_view(m@), key@) == Some(v@),
            None => get_key(pairs_view(m@), key@) is None,
        },
{
    let ks: String = key.to_owned();
    let ghost a = pairs_view(m@);
    let mut i: usize = 0;
    while i < m.len()
        invariant
            i <= m.len(),
            a == pairs_view(m@),
            a.len() == m.len(),
            ks@ == key@,
            forall|j: int| 0 <= j < i ==> a[j].0 != key@,
        decreases m.len() - i,
    {
        if m[i].0 == ks {
            proof {
                lemma_key_index_skip(a, key@, i as int);
                assert(a.skip(i as int)[0] == a[i as int]);
            }
            return Some(&m[i].1);
        }
        i = i + 1;
    }
    proof {
        lemma_key_index_skip(a, key@, m.len() as int);
        assert(a.skip(m.len() as int) =~= Seq::<(Seq<char>, Seq<char>)>::empty());
    }
    None
}

/// Sets a key to a value, overwriting in place or appending.
pub(crate) fn attr_set(m: &mut Vec<(String, String)>, key: &str, value: &str)
    ensures
        pairs_view(final(m)@) == set_key(pairs_view(old(m)@), key@, value@),
{
    let ks: String = key.to_owned();
    let vs: String = value.to_owned();
    let ghost a = pairs_view(old(m)@);
    let mut i: usize = 0;
    while i < m.len()
        invariant
            i <= m.len(),
            *m == *old(m),
            a == pairs_view(m@),
            a.len() == m.len(),
            ks@ == key@,
            vs@ == value@,
            forall|j: int| 0 <= j < i ==> a[j].0 != key@,
        decreases m.len() - i,
    {
        if m[i].0 == ks {
            proof {
                lemma_key_index_skip(a, key@, i as int);
                assert(a.skip(i as int)[0] == a[i as int]);
            }
            m.set(i, (ks, vs));
            proof {
                assert(pairs_view(m@) =~= a.update(i as int, (key@, value@)));
            }
            return ;
        }
        i = i + 1;
    }
    proof {
        lemma_key_index_skip(a, key@, m.len() as int);
        assert(a.skip(m.len() as int) =~= Seq::<(Seq<char>, Seq<char>)>::empty());
    }
    m.push((ks, vs));
    proof {
        assert(pairs_view(m@) =~= a.push((key@, value@)));
    }
}

/// Removes a key, a no-op when it is absent.
pub(crate) fn attr_remove(m: &mut Vec<(String, String)>, key: &str)
    ensures
        pairs_view(final(m)@) == remove_key(pairs_view(old(m)@), key@),
{
    let ks: String = key.to_owned();
    let ghost a = pairs_view(old(m)@);
    let mut i: usize = 0;
    while i < m.len()
        invariant
            i <= m.len(),
            *m == *old(m),
            a == pairs_view(m@),
            a.len() == m.len(),
            ks@ == key@,
            forall|j: int| 0 <= j < i ==> a[j].0 != key@,
        decreases m.len() - i,
    {
        if m[i].0 == ks {
            proof {
                lemma_key_index_skip(a, key@, i as int);
                assert(a.skip(i as int)[0] == a[i as int]);
            }
            m.remove(i);
            proof {
                assert(pairs_view(m@) =~= a.remove(i as int));
            }
            return ;
        }
        i = i + 1;
    }
    proof {
        lemma_key_index_skip(a, key@, m.len() as int);
        assert(a.skip(m.len() as int) =~= Seq::<(Seq<char>, Seq<char>)>::empty());
    }
}

/// Renders the attribute markup and extracts the text payload in one
/// pass over the list.
pub(crate) fn render_attrs(m: &Vec<(String, String)>) -> (r: (String, String))
    ensures
        r.0@ == attrs_markup(pairs_view(m@)),
        r.1@ == text_of(pairs_view(m@)),
{
    let tk: String = "text-content".to_owned();
    let ghost a = pairs_view(m@);
    let mut out = String::new();
    let mut text = String::new();
    proof {
        assert(a.skip(0) =~= a);
        assert(Seq::<char>::empty() + attrs_markup(a) =~= attrs_markup(a));
    }
    let mut i: usize = 0;
    while i < m.len()
        invariant
            i <= m.len(),
            a == pairs_view(m@),
            a.len() == m.len(),
            tk@ == text_key(),
            out@ + attrs_markup(a.skip(i as int)) == attrs_markup(a),
            text_of_from(a.skip(i as int), text@) == text_of(a),
        decreases m.len() - i,
    {
        proof {
            assert(a.skip(i as int)[0] == a[i as int]);
            assert(a.skip(i as int).drop_first() =~= a.skip(i as int + 1));
        }
        if m[i].0 == tk {
            text = m[i].1.clone();
        } else {
            out.append(" ");
            out.append(m[i].0.as_str());
            out.append("=\"");
            out.append(m[i].1.as_str());
            out.append("\"");
        }
        proof {
            assert(out@ + attrs_markup(a.skip(i as int + 1)) =~= attrs_markup(a));
        }
        i = i + 1;
    }
    proof {
        assert(a.skip(m.len() as int) =~= Seq::<(Seq<char>, Seq<char>)>::empty());
        assert(out@ + attrs_markup(a.skip(m.len() as int)) =~= out@);
    }
    (out, text)
}

} // verus!
