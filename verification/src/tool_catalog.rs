//! Drift between the tools a live MCP server lists and a pinned snapshot
//! of its catalog. Discovery is observational only: a tool that appears
//! here is reported, never authorized.
//!
//! Both drift lists come out as sets of names sorted the way `String`
//! sorts (character by character, a proper prefix first), each name once.

use vstd::prelude::*;
use vstd::string::*;

verus! {

/// `a` and `b` agree on their first `k` characters, and both have that many.
pub open spec fn agree_before(a: Seq<char>, b: Seq<char>, k: int) -> bool {
    &&& 0 <= k <= a.len()
    &&& k <= b.len()
    &&& forall|j: int| 0 <= j < k ==> a[j] == b[j]
}

/// `a` and `b` first differ at `k` with `a` before `b` there: a smaller
/// character, or `a` ends while `b` goes on.
pub open spec fn before_at(a: Seq<char>, b: Seq<char>, k: int) -> bool {
    &&& agree_before(a, b, k)
    &&& ((k < a.len() && k < b.len() && (a[k] as u32) < (b[k] as u32)) || (k == a.len() && k
        < b.len()))
}

/// `a` sorts strictly before `b`, as `String` sorts.
pub open spec fn text_before(a: Seq<char>, b: Seq<char>) -> bool {
    exists|k: int| before_at(a, b, k)
}

/// No text sorts before itself.
pub proof fn lemma_text_before_irreflexive(a: Seq<char>)
    ensures
        !text_before(a, a),
{
}

/// The order is transitive.
pub proof fn lemma_text_before_transitive(a: Seq<char>, b: Seq<char>, c: Seq<char>)
    requires
        text_before(a, b),
        text_before(b, c),
    ensures
        text_before(a, c),
{
    let i = choose|k: int| before_at(a, b, k);
    let j = choose|k: int| before_at(b, c, k);
    if i < j {
        assert(before_at(a, c, i));
    } else if j < i {
        assert(before_at(a, c, j));
    } else {
        assert(before_at(a, c, i));
    }
}

/// How two texts compare.
#[derive(Debug, Clone, Copy, PartialEq, Eq, Structural)]
pub enum TextOrder {
    Before,
    Same,
    After,
}

/// Compares two texts as `String` sorts them.
pub fn compare_text(a: &str, b: &str) -> (o: TextOrder)
    ensures
        o == TextOrder::Before ==> text_before(a@, b@),
        o == TextOrder::Same ==> a@ == b@,
        o == TextOrder::After ==> text_before(b@, a@),
{
    let n = a.unicode_len();
    let m = b.unicode_len();
    let mut i: usize = 0;
    while i < n && i < m
        invariant
            n == a@.len(),
            m == b@.len(),
            i <= n,
            i <= m,
            forall|j: int| 0 <= j < i ==> a@[j] == b@[j],
        decreases n - i,
    {
        let ca = a.get_char(i);
        let cb = b.get_char(i);
        if ca != cb {
            if (ca as u32) < (cb as u32) {
                proof {
                    assert(before_at(a@, b@, i as int));
                }
                return TextOrder::Before;
            } else {
                proof {
                    assert(before_at(b@, a@, i as int));
                }
                return TextOrder::After;
            }
        }
        i = i + 1;
    }
    if n < m {
        proof {
            assert(before_at(a@, b@, n as int));
        }
        TextOrder::Before
    } else if m < n {
        proof {
            assert(before_at(b@, a@, m as int));
        }
        TextOrder::After
    } else {
        proof {
            assert(a@ =~= b@);
        }
        TextOrder::Same
    }
}

/// The texts of a list of strings.
pub open spec fn texts(v: Seq<String>) -> Seq<Seq<char>> {
    v.map_values(|s: String| s@)
}

/// Strictly increasing in the order `String` sorts: sorted, each text once.
pub open spec fn strictly_sorted(s: Seq<Seq<char>>) -> bool {
    forall|i: int, j: int| 0 <= i < j < s.len() ==> text_before(#[trigger] s[i], #[trigger] s[j])
}

/// Whether `name` is one of `names`.
pub fn contains_text(names: &Vec<String>, name: &str) -> (r: bool)
    ensures
        r == texts(names@).contains(name@),
{
    let mut i: usize = 0;
    while i < names.len()
        invariant
            i <= names.len(),
            forall|j: int| 0 <= j < i ==> names@[j]@ != name@,
        decreases names.len() - i,
    {
        if compare_text(names[i].as_str(), name) == TextOrder::Same {
            proof {
                assert(texts(names@)[i as int] == name@);
            }
            return true;
        }
        proof {
            if names@[i as int]@ == name@ {
                lemma_text_before_irreflexive(name@);
            }
        }
        i = i + 1;
    }
    proof {
        if texts(names@).contains(name@) {
            let j = choose|j: int| 0 <= j < texts(names@).len() && texts(names@)[j] == name@;
            assert(names@[j]@ == name@);
        }
    }
    false
}

/// Adds `name` to a strictly sorted list, keeping it strictly sorted; a
/// name already there is not added again.
fn insert_sorted(names: &mut Vec<String>, name: String)
    requires
        strictly_sorted(texts(old(names)@)),
    ensures
        strictly_sorted(texts(final(names)@)),
        forall|t: Seq<char>|
            #[trigger] texts(final(names)@).contains(t) <==> (texts(old(names)@).contains(t) || t
                == name@),
{
    let ghost old_texts = texts(names@);
    let mut p: usize = 0;
    while p < names.len()
        invariant
            p <= names.len(),
            names@ == old(names)@,
            old_texts == texts(names@),
            strictly_sorted(old_texts),
            forall|k: int| 0 <= k < p ==> text_before(#[trigger] old_texts[k], name@),
        ensures
            p < names.len() ==> text_before(name@, old_texts[p as int]),
        decreases names.len() - p,
    {
        match compare_text(names[p].as_str(), name.as_str()) {
            TextOrder::Before => {
                p = p + 1;
            },
            TextOrder::Same => {
                proof {
                    assert forall|t: Seq<char>| #[trigger]
                        texts(names@).contains(t) <==> (old_texts.contains(t) || t == name@) by {
                        if t == name@ {
                            assert(texts(names@)[p as int] == t);
                        }
                    }
                }
                return;
            },
            TextOrder::After => {
                break;
            },
        }
    }
    names.insert(p, name);
    proof {
        let new_texts = texts(names@);
        assert(new_texts =~= old_texts.insert(p as int, name@));
        assert forall|i: int, j: int| 0 <= i < j < new_texts.len() implies text_before(
            #[trigger] new_texts[i],
            #[trigger] new_texts[j],
        ) by {
            if j < p {
            } else if j == p {
                assert(new_texts[i] == old_texts[i]);
            } else if i < p {
                assert(new_texts[i] == old_texts[i]);
                assert(new_texts[j] == old_texts[j - 1]);
            } else if i == p {
                assert(new_texts[j] == old_texts[j - 1]);
                if j - 1 > p {
                    lemma_text_before_transitive(name@, old_texts[p as int], old_texts[j - 1]);
                }
            } else {
                assert(new_texts[i] == old_texts[i - 1]);
                assert(new_texts[j] == old_texts[j - 1]);
            }
        }
        assert forall|t: Seq<char>| #[trigger]
            new_texts.contains(t) <==> (old_texts.contains(t) || t == name@) by {
            if old_texts.contains(t) {
                let k = choose|k: int| 0 <= k < old_texts.len() && old_texts[k] == t;
                if k < p {
                    assert(new_texts[k] == t);
                } else {
                    assert(new_texts[k + 1] == t);
                }
            }
            if t == name@ {
                assert(new_texts[p as int] == t);
            }
            if new_texts.contains(t) {
                let k = choose|k: int| 0 <= k < new_texts.len() && new_texts[k] == t;
                if k < p {
                    assert(old_texts[k] == t);
                } else if k > p {
                    assert(old_texts[k - 1] == t);
                }
            }
        }
    }
}

/// The drift between a live tool list and a pinned catalog snapshot.
#[derive(Debug, Clone, PartialEq, Eq)]
pub struct ToolCatalogDrift {
    /// Tools the live server lists that the snapshot does not.
    pub live_not_in_snapshot: Vec<String>,
    /// Tools the snapshot lists that the live server does not.
    pub snapshot_not_live: Vec<String>,
}

/// The names in `a` that are not in `b`, sorted, each once.
fn names_missing_from(a: &Vec<String>, b: &Vec<String>) -> (r: Vec<String>)
    ensures
        strictly_sorted(texts(r@)),
        forall|t: Seq<char>|
            #[trigger] texts(r@).contains(t) <==> (texts(a@).contains(t) && !texts(b@).contains(t)),
{
    let mut r: Vec<String> = Vec::new();
    let mut i: usize = 0;
    while i < a.len()
        invariant
            i <= a.len(),
            strictly_sorted(texts(r@)),
            forall|t: Seq<char>|
                #[trigger] texts(r@).contains(t) <==> (texts(a@.take(i as int)).contains(t)
                    && !texts(b@).contains(t)),
        decreases a.len() - i,
    {
        let name = a[i].clone();
        let missing = !contains_text(b, name.as_str());
        let ghost before = texts(r@);
        if missing {
            insert_sorted(&mut r, name);
        }
        proof {
            let prefix = texts(a@.take(i as int));
            let next = texts(a@.take(i + 1));
            assert(next =~= prefix.push(a@[i as int]@));
            assert forall|t: Seq<char>| #[trigger]
                texts(r@).contains(t) <==> (next.contains(t) && !texts(b@).contains(t)) by {
                if next.contains(t) {
                    let k = choose|k: int| 0 <= k < next.len() && next[k] == t;
                    if k < prefix.len() {
                        assert(prefix[k] == t);
                    }
                }
                if prefix.contains(t) {
                    let k = choose|k: int| 0 <= k < prefix.len() && prefix[k] == t;
                    assert(next[k] == t);
                }
                if t == a@[i as int]@ {
                    assert(next[i as int] == t);
                }
            }
        }
        i = i + 1;
    }
    proof {
        assert(a@.take(a.len() as int) =~= a@);
    }
    r
}

/// Compares a live tool list with a pinned catalog snapshot: the tools
/// only the live server lists, and the tools only the snapshot lists, each
/// sorted and each name once.
pub fn tool_catalog_drift(live: &Vec<String>, snapshot: &Vec<String>) -> (d: ToolCatalogDrift)
    ensures
        strictly_sorted(texts(d.live_not_in_snapshot@)),
        strictly_sorted(texts(d.snapshot_not_live@)),
        forall|t: Seq<char>|
            #[trigger] texts(d.live_not_in_snapshot@).contains(t) <==> (texts(live@).contains(t)
                && !texts(snapshot@).contains(t)),
        forall|t: Seq<char>|
            #[trigger] texts(d.snapshot_not_live@).contains(t) <==> (texts(snapshot@).contains(t)
                && !texts(live@).contains(t)),
{
    ToolCatalogDrift {
        live_not_in_snapshot: names_missing_from(live, snapshot),
        snapshot_not_live: names_missing_from(snapshot, live),
    }
}

/// Two strictly sorted lists with the same members are the same list: the
/// drift lists are fully determined by the two catalogs.
pub proof fn lemma_strictly_sorted_is_determined_by_members(s: Seq<Seq<char>>, t: Seq<Seq<char>>)
    requires
        strictly_sorted(s),
        strictly_sorted(t),
        forall|x: Seq<char>| #[trigger] s.contains(x) <==> t.contains(x),
    ensures
        s == t,
    decreases s.len() + t.len(),
{
    if s.len() == 0 {
        if t.len() > 0 {
            assert(t.contains(t[0]));
            assert(s.contains(t[0]));
            assert(false);
        }
        assert(s =~= t);
    } else if t.len() == 0 {
        assert(s.contains(s[0]));
        assert(t.contains(s[0]));
        assert(false);
    } else {
        // The first elements are the least members, so they agree.
        assert(s.contains(s[0]));
        assert(t.contains(t[0]));
        assert(t.contains(s[0]));
        assert(s.contains(t[0]));
        let ks = choose|k: int| 0 <= k < t.len() && t[k] == s[0];
        let kt = choose|k: int| 0 <= k < s.len() && s[k] == t[0];
        if ks > 0 {
            // t[0] sorts before s[0] = t[ks], and s[0] sorts no later than t[0] = s[kt].
            assert(text_before(t[0], t[ks]));
            if kt > 0 {
                assert(text_before(s[0], s[kt]));
                lemma_text_before_transitive(t[0], s[0], s[kt]);
                lemma_text_before_irreflexive(t[0]);
            } else {
                lemma_text_before_irreflexive(s[0]);
            }
        }
        assert(s[0] == t[0]);
        let s1 = s.drop_first();
        let t1 = t.drop_first();
        assert forall|x: Seq<char>| #[trigger] s1.contains(x) <==> t1.contains(x) by {
            if s1.contains(x) {
                let k = choose|k: int| 0 <= k < s1.len() && s1[k] == x;
                assert(s[k + 1] == x);
                assert(s.contains(x));
                assert(t.contains(x));
                let m = choose|m: int| 0 <= m < t.len() && t[m] == x;
                if m == 0 {
                    assert(text_before(s[0], s[k + 1]));
                    lemma_text_before_irreflexive(x);
                }
                assert(t1[m - 1] == x);
            }
            if t1.contains(x) {
                let k = choose|k: int| 0 <= k < t1.len() && t1[k] == x;
                assert(t[k + 1] == x);
                assert(t.contains(x));
                assert(s.contains(x));
                let m = choose|m: int| 0 <= m < s.len() && s[m] == x;
                if m == 0 {
                    assert(text_before(t[0], t[k + 1]));
                    lemma_text_before_irreflexive(x);
                }
                assert(s1[m - 1] == x);
            }
        }
        lemma_strictly_sorted_is_determined_by_members(s1, t1);
        assert(s =~= seq![s[0]] + s1);
        assert(t =~= seq![t[0]] + t1);
    }
}

} // verus!
