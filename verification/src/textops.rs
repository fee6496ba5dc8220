//! Verified text utilities: whitespace tokenization, joining, token
//! filtering, substring search, substring removal and trimming. These
//! back the class-list and inline-style management of elements.

use vstd::prelude::*;

verus! {

/// The whitespace characters recognized by the tokenizer.
pub open spec fn is_space(c: char) -> bool {
    c == ' ' || c == '\t' || c == '\n' || c == '\r'
}

fn is_space_exec(c: char) -> (r: bool)
    ensures
        r == is_space(c),
{
    c == ' ' || c == '\t' || c == '\n' || c == '\r'
}

/// Folds the characters left to right, carrying the token read so
/// far: whitespace closes the current token (dropping empty ones),
/// any other character extends it.
pub open spec fn split_ws_from(s: Seq<char>, cur: Seq<char>) -> Seq<Seq<char>>
    decreases s.len(),
{
    if s.len() == 0 {
        if cur.len() > 0 {
            seq![cur]
        } else {
            Seq::empty()
        }
    } else if is_space(s[0]) {
        (if cur.len() > 0 {
            seq![cur]
        } else {
            Seq::empty()
        }) + split_ws_from(s.drop_first(), Seq::empty())
    } else {
        split_ws_from(s.drop_first(), cur.push(s[0]))
    }
}

/// The whitespace-separated tokens of a string, in order, with no
/// empty tokens.
pub open spec fn split_ws(s: Seq<char>) -> Seq<Seq<char>> {
    split_ws_from(s, Seq::empty())
}

/// The tokens joined back together with single spaces.
pub open spec fn join_sp(ts: Seq<Seq<char>>) -> Seq<char>
    decreases ts.len(),
{
    if ts.len() == 0 {
        Seq::empty()
    } else if ts.len() == 1 {
        ts[0]
    } else {
        join_sp(ts.drop_last()) + " "@ + ts.last()
    }
}

/// The tokens with every occurrence of `t` dropped.
pub open spec fn filter_ne(ts: Seq<Seq<char>>, t: Seq<char>) -> Seq<Seq<char>>
    decreases ts.len(),
{
    if ts.len() == 0 {
        Seq::empty()
    } else {
        (if ts[0] == t {
            Seq::<Seq<char>>::empty()
        } else {
            seq![ts[0]]
        }) + filter_ne(ts.drop_first(), t)
    }
}

/// Whether `pat` occurs as a contiguous substring of `s`.
pub open spec fn contains_sub(s: Seq<char>, pat: Seq<char>) -> bool {
    exists|i: int|
        0 <= i && i + pat.len() <= s.len() && #[trigger] s.subrange(i, i + pat.len() as int)
            == pat
}

/// The string with every non-overlapping occurrence of `pat`, found
/// left to right, replaced by `rep`. An empty pattern is a no-op.
pub open spec fn replace_all(s: Seq<char>, pat: Seq<char>, rep: Seq<char>) -> Seq<char>
    decreases s.len(),
{
    if pat.len() == 0 || s.len() < pat.len() {
        s
    } else if s.take(pat.len() as int) == pat {
        rep + replace_all(s.skip(pat.len() as int), pat, rep)
    } else {
        seq![s[0]] + replace_all(s.drop_first(), pat, rep)
    }
}

/// The string without its leading whitespace.
pub open spec fn ltrim(s: Seq<char>) -> Seq<char>
    decreases s.len(),
{
    if s.len() > 0 && is_space(s[0]) {
        ltrim(s.drop_first())
    } else {
        s
    }
}

/// The string without its trailing whitespace.
pub open spec fn rtrim(s: Seq<char>) -> Seq<char>
    decreases s.len(),
{
    if s.len() > 0 && is_space(s.last()) {
        rtrim(s.drop_last())
    } else {
        s
    }
}

/// The string without leading and trailing whitespace.
pub open spec fn trim_sp(s: Seq<char>) -> Seq<char> {
    rtrim(ltrim(s))
}

/// Splits a string into its whitespace-separated tokens.
pub fn split_tokens(s: &str) -> (r: Vec<String>)
    ensures
        r@.map_values(|t: String| t@) == split_ws(s@),
{
    let n = s.unicode_len();
    let mut toks: Vec<String> = Vec::new();
    let mut start: usize = 0;
    proof {
        assert(s@.skip(0) =~= s@);
        assert(s@.subrange(0, 0) =~= Seq::<char>::empty());
        assert(toks@.map_values(|t: String| t@) + split_ws(s@) =~= split_ws(s@));
    }
    let mut i: usize = 0;
    while i < n
        invariant
            n == s@.len(),
            start <= i <= n,
            toks@.map_values(|t: String| t@) + split_ws_from(
                s@.skip(i as int),
                s@.subrange(start as int, i as int),
            ) == split_ws(s@),
        decreases n - i,
    {
        let ghost cur = s@.subrange(start as int, i as int);
        proof {
            assert(s@.skip(i as int)[0] == s@[i as int]);
            assert(s@.skip(i as int).drop_first() =~= s@.skip(i as int + 1));
        }
        let c = s.get_char(i);
        if is_space_exec(c) {
            if start < i {
                let ghost tv0 = toks@.map_values(|t: String| t@);
                let t = s.substring_char(start, i);
                toks.push(t.to_owned());
                proof {
                    assert(toks@.map_values(|t: String| t@) =~= tv0.push(cur));
                }
            }
            start = i + 1;
            proof {
                assert(s@.subrange(i as int + 1, i as int + 1) =~= Seq::<char>::empty());
                assert(toks@.map_values(|t: String| t@) + split_ws_from(
                    s@.skip(i as int + 1),
                    Seq::empty(),
                ) =~= split_ws(s@));
            }
        } else {
            proof {
                assert(s@.subrange(start as int, i as int + 1) =~= cur.push(s@[i as int]));
            }
        }
        i = i + 1;
    }
    proof {
        assert(s@.skip(n as int) =~= Seq::<char>::empty());
    }
    if start < n {
        let ghost tv0 = toks@.map_values(|t: String| t@);
        let t = s.substring_char(start, n);
        toks.push(t.to_owned());
        proof {
            assert(toks@.map_values(|t: String| t@) =~= tv0.push(
                s@.subrange(start as int, n as int),
            ));
            assert(toks@.map_values(|t: String| t@) =~= split_ws(s@));
        }
    } else {
        proof {
            assert(toks@.map_values(|t: String| t@) + split_ws_from(
                s@.skip(n as int),
                s@.subrange(start as int, n as int),
            ) =~= toks@.map_values(|t: String| t@));
        }
    }
    toks
}

/// Joins tokens with single spaces.
pub fn join_tokens(ts: &Vec<String>) -> (r: String)
    ensures
        r@ == join_sp(ts@.map_values(|t: String| t@)),
{
    let ghost tv = ts@.map_values(|t: String| t@);
    let mut out = String::new();
    let mut j: usize = 0;
    while j < ts.len()
        invariant
            j <= ts.len(),
            tv == ts@.map_values(|t: String| t@),
            tv.len() == ts.len(),
            out@ == join_sp(tv.take(j as int)),
        decreases ts.len() - j,
    {
        if j > 0 {
            out.append(" ");
        }
        out.append(ts[j].as_str());
        proof {
            assert(tv.take(j as int + 1).drop_last() =~= tv.take(j as int));
            assert(tv.take(j as int + 1).last() == tv[j as int]);
            if j == 0 {
                assert(join_sp(tv.take(1)) == tv[0]);
                assert(Seq::<char>::empty() + tv[0] =~= tv[0]);
            }
        }
        j = j + 1;
    }
    proof {
        assert(tv.take(ts.len() as int) =~= tv);
    }
    out
}

/// Keeps the tokens different from `t`.
pub fn filter_tokens(ts: Vec<String>, t: &str) -> (r: Vec<String>)
    ensures
        r@.map_values(|x: String| x@) == filter_ne(ts@.map_values(|x: String| x@), t@),
{
    let ghost tv = ts@.map_values(|x: String| x@);
    let tw: String = t.to_owned();
    let mut out: Vec<String> = Vec::new();
    proof {
        assert(tv.skip(0) =~= tv);
        assert(out@.map_values(|x: String| x@) + filter_ne(tv, t@) =~= filter_ne(tv, t@));
    }
    let mut j: usize = 0;
    while j < ts.len()
        invariant
            j <= ts.len(),
            tv == ts@.map_values(|x: String| x@),
            tv.len() == ts.len(),
            tw@ == t@,
            out@.map_values(|x: String| x@) + filter_ne(tv.skip(j as int), t@) == filter_ne(
                tv,
                t@,
            ),
        decreases ts.len() - j,
    {
        proof {
            assert(tv.skip(j as int)[0] == tv[j as int]);
            assert(tv.skip(j as int).drop_first() =~= tv.skip(j as int + 1));
        }
        if !(ts[j] == tw) {
            let ghost ov0 = out@.map_values(|x: String| x@);
            let x = ts[j].clone();
            out.push(x);
            proof {
                assert(out@.map_values(|x: String| x@) =~= ov0.push(tv[j as int]));
            }
        }
        proof {
            assert(out@.map_values(|x: String| x@) + filter_ne(tv.skip(j as int + 1), t@)
                =~= filter_ne(tv, t@));
        }
        j = j + 1;
    }
    proof {
        assert(tv.skip(ts.len() as int) =~= Seq::<Seq<char>>::empty());
        assert(out@.map_values(|x: String| x@) + filter_ne(tv.skip(ts.len() as int), t@)
            =~= out@.map_values(|x: String| x@));
    }
    out
}

/// Whether some token equals `t`.
pub fn any_token_eq(ts: &Vec<String>, t: &str) -> (r: bool)
    ensures
        r == ts@.map_values(|x: String| x@).contains(t@),
{
    let ghost tv = ts@.map_values(|x: String| x@);
    let tw: String = t.to_owned();
    let mut j: usize = 0;
    while j < ts.len()
        invariant
            j <= ts.len(),
            tv == ts@.map_values(|x: String| x@),
            tv.len() == ts.len(),
            tw@ == t@,
            forall|k: int| 0 <= k < j ==> tv[k] != t@,
        decreases ts.len() - j,
    {
        if ts[j] == tw {
            proof {
                assert(tv[j as int] == t@);
            }
            return true;
        }
        j = j + 1;
    }
    proof {
        assert(!tv.contains(t@)) by {
            if tv.contains(t@) {
                let k = choose|k: int| 0 <= k < tv.len() && tv[k] == t@;
                assert(tv[k] != t@);
            }
        }
    }
    false
}

/// Whether `pat` occurs in `s`.
pub fn contains_str(s: &str, pat: &str) -> (r: bool)
    ensures
        r == contains_sub(s@, pat@),
{
    let n = s.unicode_len();
    let m = pat.unicode_len();
    let pw: String = pat.to_owned();
    if m == 0 {
        proof {
            assert(s@.subrange(0, 0 + pat@.len() as int) =~= pat@);
            assert(contains_sub(s@, pat@));
        }
        return true;
    }
    if m > n {
        proof {
            assert(!contains_sub(s@, pat@)) by {
                if contains_sub(s@, pat@) {
                    let i = choose|i: int|
                        0 <= i && i + pat@.len() <= s@.len() && #[trigger] s@.subrange(
                            i,
                            i + pat@.len() as int,
                        ) == pat@;
                }
            }
        }
        return false;
    }
    let mut i: usize = 0;
    while i <= n - m
        invariant
            n == s@.len(),
            m == pat@.len(),
            m <= n,
            i <= n - m + 1,
            pw@ == pat@,
            m >= 1,
            forall|k: int|
                0 <= k < i ==> #[trigger] s@.subrange(k, k + pat@.len() as int) != pat@,
        decreases n - m + 1 - i,
    {
        let sub = s.substring_char(i, i + m);
        if sub.to_owned() == pw {
            proof {
                assert(s@.subrange(i as int, i as int + pat@.len() as int) == pat@);
            }
            return true;
        }
        i = i + 1;
    }
    proof {
        assert(!contains_sub(s@, pat@)) by {
            if contains_sub(s@, pat@) {
                let k = choose|k: int|
                    0 <= k && k + pat@.len() <= s@.len() && #[trigger] s@.subrange(
                        k,
                        k + pat@.len() as int,
                    ) == pat@;
                assert(s@.subrange(k, k + pat@.len() as int) != pat@);
            }
        }
    }
    false
}

/// Replaces every occurrence of `pat` in `s` by `rep`, left to right.
pub fn replace_str(s: &str, pat: &str, rep: &str) -> (r: String)
    ensures
        r@ == replace_all(s@, pat@, rep@),
{
    let n = s.unicode_len();
    let m = pat.unicode_len();
    let pw: String = pat.to_owned();
    let mut out = String::new();
    if m == 0 {
        let whole = s.substring_char(0, n);
        out.append(whole);
        proof {
            assert(s@.subrange(0, n as int) =~= s@);
            assert(Seq::<char>::empty() + s@ =~= s@);
        }
        return out;
    }
    proof {
        assert(s@.skip(0) =~= s@);
        assert(Seq::<char>::empty() + replace_all(s@, pat@, rep@) =~= replace_all(s@, pat@, rep@));
    }
    let mut i: usize = 0;
    while m <= n && i <= n - m
        invariant
            n == s@.len(),
            m == pat@.len(),
            m >= 1,
            i <= n,
            pw@ == pat@,
            out@ + replace_all(s@.skip(i as int), pat@, rep@) == replace_all(s@, pat@, rep@),
        decreases n - i,
    {
        let ghost suf = s@.skip(i as int);
        proof {
            assert(suf.take(m as int) =~= s@.subrange(i as int, i as int + m as int));
            assert(suf[0] == s@[i as int]);
            assert(suf.drop_first() =~= s@.skip(i as int + 1));
            assert(suf.skip(m as int) =~= s@.skip(i as int + m as int));
        }
        let sub = s.substring_char(i, i + m);
        if sub.to_owned() == pw {
            out.append(rep);
            proof {
                assert(out@ + replace_all(s@.skip(i as int + m as int), pat@, rep@)
                    =~= replace_all(s@, pat@, rep@));
            }
            i = i + m;
        } else {
            let one = s.substring_char(i, i + 1);
            out.append(one);
            proof {
                assert(one@ =~= seq![s@[i as int]]);
                assert(out@ + replace_all(s@.skip(i as int + 1), pat@, rep@) =~= replace_all(
                    s@,
                    pat@,
                    rep@,
                ));
            }
            i = i + 1;
        }
    }
    let tail = s.substring_char(i, n);
    out.append(tail);
    proof {
        assert(tail@ =~= s@.skip(i as int));
        assert(replace_all(s@.skip(i as int), pat@, rep@) == s@.skip(i as int));
        assert(out@ =~= replace_all(s@, pat@, rep@));
    }
    out
}

/// Strips leading and trailing whitespace.
#[verifier::rlimit(50)]
pub fn trim_str(s: &str) -> (r: String)
    ensures
        r@ == trim_sp(s@),
{
    let n = s.unicode_len();
    let mut a: usize = 0;
    proof {
        assert(s@.skip(0) =~= s@);
    }
    while a < n && is_space_exec(s.get_char(a))
        invariant
            n == s@.len(),
            a <= n,
            ltrim(s@.skip(a as int)) == ltrim(s@),
        decreases n - a,
    {
        proof {
            assert(s@.skip(a as int)[0] == s@[a as int]);
            assert(s@.skip(a as int).drop_first() =~= s@.skip(a as int + 1));
        }
        a = a + 1;
    }
    proof {
        if a == n {
            assert(s@.skip(a as int) =~= Seq::<char>::empty());
        }
        assert(ltrim(s@.skip(a as int)) == s@.skip(a as int));
    }
    let ghost lt = s@.skip(a as int);
    let mut b: usize = n;
    proof {
        assert(lt.take(n as int - a as int) =~= lt);
    }
    while b > a && is_space_exec(s.get_char(b - 1))
        invariant
            n == s@.len(),
            a <= b <= n,
            lt == s@.skip(a as int),
            ltrim(s@) == lt,
            rtrim(lt.take(b as int - a as int)) == rtrim(lt),
        decreases b,
    {
        proof {
            assert(lt.take(b as int - a as int).last() == s@[b as int - 1]);
            assert(lt.take(b as int - a as int).drop_last() =~= lt.take(b as int - 1 - a as int));
        }
        b = b - 1;
    }
    proof {
        if b == a {
            assert(lt.take(0) =~= Seq::<char>::empty());
        }
        assert(rtrim(lt.take(b as int - a as int)) == lt.take(b as int - a as int));
    }
    let r = s.substring_char(a, b);
    proof {
        assert(r@ =~= lt.take(b as int - a as int));
    }
    r.to_owned()
}

} // verus!
