//! Who is told that a Trusted Publishing token was exposed: one message per
//! owner address, listing the owner's crates that the token could publish,
//! in a stable order.
use crate::text::{lemma_str_lt_total, lemma_str_lt_transitive, owned, str_less, str_lt};
use vstd::prelude::*;

verus! {

/// Whether a sequence of texts is strictly increasing.
pub open spec fn strictly_sorted(s: Seq<Seq<char>>) -> bool {
    forall|i: int, j: int| 0 <= i < j < s.len() ==> str_lt(s[i], s[j])
}

/// Inserts `x` into a strictly increasing list of texts, unless it is there.
fn insert_text(v: &mut Vec<String>, x: String)
    requires
        strictly_sorted(old(v).deep_view()),
    ensures
        strictly_sorted(final(v).deep_view()),
        forall|t: Seq<char>| final(v).deep_view().contains(t) <==> (old(v).deep_view().contains(t)
            || t == x@),
{
    let ghost before = v.deep_view();
    let mut i: usize = 0;
    while i < v.len() && str_less(v[i].as_str(), x.as_str())
        invariant
            i <= v.len(),
            v.deep_view() == before,
            strictly_sorted(before),
            forall|j: int| 0 <= j < i ==> str_lt(before[j], x@),
        decreases v.len() - i,
    {
        i = i + 1;
    }
    if i < v.len() && crate::text::str_eq(v[i].as_str(), x.as_str()) {
        assert(before[i as int] == x@);
        return;
    }
    let ghost xv = x@;
    proof {
        if i < v.len() {
            lemma_str_lt_total(before[i as int], xv);
        }
    }
    v.insert(i, x);
    let ghost after = v.deep_view();
    assert(after =~= before.insert(i as int, xv));
    assert forall|a: int, b: int| 0 <= a < b < after.len() implies str_lt(after[a], after[b]) by {
        if b < i {
        } else if a < i && b == i {
        } else if a < i && b > i {
            assert(after[b] == before[b - 1]);
            if b - 1 == i {
                lemma_str_lt_transitive(before[a], xv, before[b - 1]);
            } else {
                assert(str_lt(before[a], before[b - 1]));
            }
        } else if a == i {
            assert(after[b] == before[b - 1]);
            if b - 1 > i {
                lemma_str_lt_transitive(xv, before[i as int], before[b - 1]);
            }
        } else {
            assert(after[a] == before[a - 1] && after[b] == before[b - 1]);
        }
    }
    assert forall|t: Seq<char>| after.contains(t) <==> (before.contains(t) || t == xv) by {
        if after.contains(t) {
            let k = choose|k: int| 0 <= k < after.len() && after[k] == t;
            if k < i {
                assert(before[k] == t);
            } else if k > i {
                assert(before[k - 1] == t);
            }
        }
        if before.contains(t) {
            let k = choose|k: int| 0 <= k < before.len() && before[k] == t;
            if k < i {
                assert(after[k] == t);
            } else {
                assert(after[k + 1] == t);
            }
        }
        if t == xv {
            assert(after[i as int] == t);
        }
    }
}

/// The name a crate id stands for in the loaded `(id, name)` pairs: the last
/// pair with the id wins, as in a map filled in order.
pub open spec fn name_for(names: Seq<(i32, String)>, id: i32) -> Option<Seq<char>>
    decreases names.len(),
{
    if names.len() == 0 {
        None
    } else if names.last().0 == id {
        Some(names.last().1@)
    } else {
        name_for(names.drop_last(), id)
    }
}

fn lookup_name(names: &Vec<(i32, String)>, id: i32) -> (r: Option<String>)
    ensures
        match r {
            Some(n) => name_for(names@, id) == Some(n@),
            None => name_for(names@, id) is None,
        },
{
    let mut i = names.len();
    assert(names@.take(names.len() as int) =~= names@);
    while i > 0
        invariant
            i <= names.len(),
            name_for(names@, id) == name_for(names@.take(i as int), id),
        decreases i,
    {
        assert(names@.take(i as int).drop_last() =~= names@.take(i - 1));
        if names[i - 1].0 == id {
            return Some(owned(names[i - 1].1.as_str()));
        }
        i = i - 1;
    }
    None
}

/// The view of the grouped notifications.
pub open spec fn groups_view(g: Vec<(String, Vec<String>)>) -> Seq<(Seq<char>, Seq<Seq<char>>)> {
    g@.map_values(|e: (String, Vec<String>)| (e.0@, e.1.deep_view()))
}

/// Whether the owner at `email` is to be told about crate `name`: some row
/// pairs the address with a crate whose name was loaded.
pub open spec fn is_notified(
    rows: Seq<(i32, String)>,
    names: Seq<(i32, String)>,
    email: Seq<char>,
    name: Seq<char>,
) -> bool {
    exists|k: int|
        0 <= k < rows.len() && rows[k].1@ == email && name_for(names, rows[k].0) == Some(name)
}

/// Whether the groups list `(email, name)`.
pub open spec fn lists(g: Seq<(Seq<char>, Seq<Seq<char>>)>, email: Seq<char>, name: Seq<char>) -> bool {
    exists|i: int| 0 <= i < g.len() && g[i].0 == email && g[i].1.contains(name)
}

/// Whether groups are sorted by address, with sorted, non-empty name lists.
pub open spec fn well_grouped(g: Seq<(Seq<char>, Seq<Seq<char>>)>) -> bool {
    &&& forall|i: int, j: int| 0 <= i < j < g.len() ==> str_lt(g[i].0, g[j].0)
    &&& forall|i: int| 0 <= i < g.len() ==> strictly_sorted(#[trigger] g[i].1) && g[i].1.len() > 0
}

/// Adds `(email, name)` to the groups.
fn add_to_groups(g: &mut Vec<(String, Vec<String>)>, email: String, name: String)
    requires
        well_grouped(groups_view(*old(g))),
    ensures
        well_grouped(groups_view(*final(g))),
        forall|e: Seq<char>, n: Seq<char>|
            lists(groups_view(*final(g)), e, n) <==> (lists(groups_view(*old(g)), e, n) || (e
                == email@ && n == name@)),
{
    let ghost before = groups_view(*g);
    let mut i: usize = 0;
    while i < g.len() && str_less(g[i].0.as_str(), email.as_str())
        invariant
            i <= g.len(),
            groups_view(*g) == before,
            well_grouped(before),
            forall|j: int| 0 <= j < i ==> str_lt(before[j].0, email@),
        decreases g.len() - i,
    {
        i = i + 1;
    }
    let ghost ev = email@;
    let ghost nv = name@;
    if i < g.len() && crate::text::str_eq(g[i].0.as_str(), email.as_str()) {
        let mut entry = g.remove(i);
        let ghost old_names = entry.1.deep_view();
        assert(before[i as int] == (entry.0@, old_names));
        assert(strictly_sorted(before[i as int].1));
        insert_text(&mut entry.1, name);
        let ghost new_names = entry.1.deep_view();
        g.insert(i, entry);
        let ghost after = groups_view(*g);
        assert(after =~= before.update(i as int, (ev, new_names)));
        assert(new_names.contains(nv));
        assert(new_names.len() > 0);
        assert forall|a: int, b: int| 0 <= a < b < after.len() implies str_lt(after[a].0, after[b].0) by {
            assert(after[a].0 == before[a].0 && after[b].0 == before[b].0);
        }
        assert forall|k: int| 0 <= k < after.len() implies strictly_sorted(#[trigger] after[k].1)
            && after[k].1.len() > 0 by {
            if k != i {
                assert(after[k] == before[k]);
            }
        }
        assert forall|e: Seq<char>, n: Seq<char>| lists(after, e, n) <==> (lists(before, e, n) || (e
            == ev && n == nv)) by {
            if lists(after, e, n) {
                let k = choose|k: int| 0 <= k < after.len() && after[k].0 == e && after[k].1.contains(n);
                if k != i {
                    assert(before[k] == after[k]);
                } else if n != nv {
                    assert(old_names.contains(n));
                }
            }
            if lists(before, e, n) {
                let k = choose|k: int| 0 <= k < before.len() && before[k].0 == e && before[k].1.contains(n);
                if k != i {
                    assert(after[k] == before[k]);
                } else {
                    assert(new_names.contains(n));
                }
            }
            if e == ev && n == nv {
                assert(after[i as int].0 == e && after[i as int].1.contains(n));
            }
        }
    } else {
        proof {
            if i < g.len() {
                lemma_str_lt_total(before[i as int].0, ev);
            }
        }
        let mut names: Vec<String> = Vec::new();
        names.push(name);
        let ghost nseq = names.deep_view();
        assert(nseq =~= seq![nv]);
        g.insert(i, (email, names));
        let ghost after = groups_view(*g);
        assert(after =~= before.insert(i as int, (ev, seq![nv])));
        assert forall|a: int, b: int| 0 <= a < b < after.len() implies str_lt(after[a].0, after[b].0) by {
            if b < i {
                assert(after[a] == before[a] && after[b] == before[b]);
            } else if a < i && b == i {
                assert(after[a] == before[a]);
            } else if a < i && b > i {
                assert(after[a] == before[a] && after[b] == before[b - 1]);
                if b - 1 == i {
                    lemma_str_lt_transitive(before[a].0, ev, before[b - 1].0);
                } else {
                    assert(str_lt(before[a].0, before[b - 1].0));
                }
            } else if a == i {
                assert(after[b] == before[b - 1]);
                if b - 1 > i {
                    lemma_str_lt_transitive(ev, before[i as int].0, before[b - 1].0);
                }
            } else {
                assert(after[a] == before[a - 1] && after[b] == before[b - 1]);
            }
        }
        assert forall|k: int| 0 <= k < after.len() implies strictly_sorted(#[trigger] after[k].1)
            && after[k].1.len() > 0 by {
            if k < i {
                assert(after[k] == before[k]);
            } else if k > i {
                assert(after[k] == before[k - 1]);
            }
        }
        assert forall|e: Seq<char>, n: Seq<char>| lists(after, e, n) <==> (lists(before, e, n) || (e
            == ev && n == nv)) by {
            if lists(after, e, n) {
                let k = choose|k: int| 0 <= k < after.len() && after[k].0 == e && after[k].1.contains(n);
                if k < i {
                    assert(before[k] == after[k]);
                } else if k > i {
                    assert(before[k - 1] == after[k]);
                } else {
                    assert(seq![nv].contains(n));
                    assert(seq![nv][0] == nv);
                }
            }
            if lists(before, e, n) {
                let k = choose|k: int| 0 <= k < before.len() && before[k].0 == e && before[k].1.contains(n);
                if k < i {
                    assert(after[k] == before[k]);
                } else {
                    assert(after[k + 1] == before[k]);
                }
            }
            if e == ev && n == nv {
                assert(after[i as int].1[0] == nv);
            }
        }
    }
}

/// The notifications to send: one per owner address, sorted by address,
/// each with the sorted names of the address's crates that the token could
/// publish. `rows` pairs crate ids with the verified addresses of their
/// owners; `names` holds the loaded crate names (a crate whose name was not
/// loaded is passed over).
pub fn group_notifications(rows: &Vec<(i32, String)>, names: &Vec<(i32, String)>) -> (g: Vec<
    (String, Vec<String>),
>)
    ensures
        well_grouped(groups_view(g)),
        forall|e: Seq<char>, n: Seq<char>|
            lists(groups_view(g), e, n) <==> is_notified(rows@, names@, e, n),
{
    let mut g: Vec<(String, Vec<String>)> = Vec::new();
    let mut k: usize = 0;
    while k < rows.len()
        invariant
            k <= rows.len(),
            well_grouped(groups_view(g)),
            forall|e: Seq<char>, n: Seq<char>|
                lists(groups_view(g), e, n) <==> is_notified(rows@.take(k as int), names@, e, n),
        decreases rows.len() - k,
    {
        let ghost prev = groups_view(g);
        let found = lookup_name(names, rows[k].0);
        match found {
            Some(n) => {
                let ghost nv = n@;
                let ghost ev = rows@[k as int].1@;
                add_to_groups(&mut g, owned(rows[k].1.as_str()), n);
                assert forall|e: Seq<char>, m: Seq<char>|
                    lists(groups_view(g), e, m) <==> is_notified(rows@.take(k + 1), names@, e, m) by {
                    let t = rows@.take(k + 1);
                    if is_notified(rows@.take(k as int), names@, e, m) {
                        let j = choose|j: int|
                            0 <= j < k && rows@.take(k as int)[j].1@ == e && name_for(
                                names@,
                                rows@.take(k as int)[j].0,
                            ) == Some(m);
                        assert(t[j] == rows@.take(k as int)[j]);
                    }
                    if e == ev && m == nv {
                        assert(t[k as int] == rows@[k as int]);
                    }
                    if is_notified(t, names@, e, m) {
                        let j = choose|j: int|
                            0 <= j < t.len() && t[j].1@ == e && name_for(names@, t[j].0) == Some(m);
                        if j < k {
                            assert(rows@.take(k as int)[j] == t[j]);
                        }
                    }
                }
            },
            None => {
                assert forall|e: Seq<char>, m: Seq<char>|
                    lists(groups_view(g), e, m) <==> is_notified(rows@.take(k + 1), names@, e, m) by {
                    let t = rows@.take(k + 1);
                    if is_notified(rows@.take(k as int), names@, e, m) {
                        let j = choose|j: int|
                            0 <= j < k && rows@.take(k as int)[j].1@ == e && name_for(
                                names@,
                                rows@.take(k as int)[j].0,
                            ) == Some(m);
                        assert(t[j] == rows@.take(k as int)[j]);
                    }
                    if is_notified(t, names@, e, m) {
                        let j = choose|j: int|
                            0 <= j < t.len() && t[j].1@ == e && name_for(names@, t[j].0) == Some(m);
                        if j < k {
                            assert(rows@.take(k as int)[j] == t[j]);
                        }
                    }
                }
            },
        }
        k = k + 1;
    }
    assert(rows@.take(rows.len() as int) =~= rows@);
    g
}

} // verus!
