//! Checks a crate name and version against the deleted crates of the same
//! name before the version may be published.
use crate::semver::{semver_display, semver_less, semver_parses, SemVer};
use crate::text::{join, join_strings, owned, push_str};
use crate::time::{rfc3339_secs_text, to_rfc3339_secs, UtcTime};
use vstd::prelude::*;

verus! {

/// The most restrictive conditions that earlier deletions of a crate name
/// put on publishing under it: the latest time of reuse, and the highest
/// minimum version.
pub struct State {
    pub available_at: Option<UtcTime>,
    pub min_version: Option<SemVer>,
}

/// The later of two times (the second where they are equal).
pub open spec fn later(current: UtcTime, t: UtcTime) -> UtcTime {
    if t.total_nanos() < current.total_nanos() {
        current
    } else {
        t
    }
}

/// The greater of two versions, as `std::cmp::max` picks it (the second
/// where neither precedes the other).
pub open spec fn greater(current: SemVer, v: SemVer) -> SemVer {
    if semver_less(v.text(), current.text()) {
        current
    } else {
        v
    }
}

/// The reuse time kept after observing `t`, with `current` kept so far: the
/// later of the two, as [`State::observe_available_at`] keeps it.
pub open spec fn observed_available_at(current: Option<UtcTime>, t: UtcTime) -> Option<UtcTime> {
    Some(
        match current {
            Some(c) => later(c, t),
            None => t,
        },
    )
}

/// The latest of the times observed, in order, from `start` on.
pub open spec fn latest_of(start: Option<UtcTime>, times: Seq<UtcTime>) -> Option<UtcTime>
    decreases times.len(),
{
    if times.len() == 0 {
        start
    } else {
        let before = latest_of(start, times.drop_last());
        match before {
            Some(c) => Some(later(c, times.last())),
            None => Some(times.last()),
        }
    }
}

/// The greater of two version texts in semver's order (the second where
/// neither precedes the other).
pub open spec fn greater_text(current: Seq<char>, v: Seq<char>) -> Seq<char> {
    if semver_less(v, current) {
        current
    } else {
        v
    }
}

/// The highest of the version texts observed, in order, from `start` on.
pub open spec fn highest_of(start: Option<Seq<char>>, texts: Seq<Seq<char>>) -> Option<Seq<char>>
    decreases texts.len(),
{
    if texts.len() == 0 {
        start
    } else {
        let before = highest_of(start, texts.drop_last());
        match before {
            Some(c) => Some(greater_text(c, texts.last())),
            None => Some(texts.last()),
        }
    }
}

/// The minimum versions of the deleted crates that parse, in order.
pub open spec fn parsed_min_versions(rows: Seq<(UtcTime, Option<String>)>) -> Seq<Seq<char>>
    decreases rows.len(),
{
    if rows.len() == 0 {
        Seq::empty()
    } else {
        let rest = parsed_min_versions(rows.drop_last());
        match rows.last().1 {
            Some(t) => if semver_parses(t@) {
                rest.push(t@)
            } else {
                rest
            },
            None => rest,
        }
    }
}

/// The text of an optional version.
pub open spec fn version_text(v: Option<SemVer>) -> Option<Seq<char>> {
    match v {
        Some(m) => Some(m.text()),
        None => None,
    }
}

/// The reason that blocks reuse of the name until a later time.
pub open spec fn reuse_message(available_at: UtcTime) -> Seq<char> {
    "Reuse of this name will be available after "@ + rfc3339_secs_text(
        available_at.seconds() as i64,
        available_at.subsec_nanos() as u32,
    ) + "."@
}

/// The reason that blocks versions below the minimum.
pub open spec fn min_version_message(min_version: SemVer) -> Seq<char> {
    "To avoid conflicts with previously published versions of this crate, the minimum version that can be published is "@
        + semver_display(min_version.text()) + "."@
}

/// The reasons that the state gives against publishing `version` at `now`.
pub open spec fn deletion_reasons(s: State, version: SemVer, now: UtcTime) -> Seq<Seq<char>> {
    let first: Seq<Seq<char>> = match s.available_at {
        Some(a) => if now.total_nanos() < a.total_nanos() {
            seq![reuse_message(a)]
        } else {
            Seq::empty()
        },
        None => Seq::empty(),
    };
    match s.min_version {
        Some(m) => if semver_less(version.text(), m.text()) {
            first.push(min_version_message(m))
        } else {
            first
        },
        None => first,
    }
}

/// The text of the refusal (`422 Unprocessable Entity`).
pub open spec fn deletion_error_text(name: Seq<char>, reasons: Seq<Seq<char>>) -> Seq<char> {
    "A crate with the name `"@ + name + "` was previously deleted.\n\n* "@ + join(reasons, "\n* "@)
}

impl State {
    /// A state with no deletion observed.
    pub fn new() -> (s: Self)
        ensures
            s.available_at is None,
            s.min_version is None,
    {
        State { available_at: None, min_version: None }
    }

    /// Takes into account a deletion whose name may be reused from `available_at` on.
    pub fn observe_available_at(&mut self, available_at: UtcTime)
        ensures
            final(self).min_version == old(self).min_version,
            final(self).available_at == observed_available_at(old(self).available_at, available_at),
    {
        match self.available_at {
            Some(current) => {
                if available_at.before(&current) {
                    self.available_at = Some(current);
                } else {
                    self.available_at = Some(available_at);
                }
            },
            None => {
                self.available_at = Some(available_at);
            },
        }
    }

    /// Takes into account a deletion that set a minimum version.
    pub fn observe_min_version(&mut self, min_version: SemVer)
        ensures
            final(self).available_at == old(self).available_at,
            final(self).min_version == Some(
                match old(self).min_version {
                    Some(c) => greater(c, min_version),
                    None => min_version,
                },
            ),
    {
        let current = self.min_version.take();
        match current {
            Some(current) => {
                if min_version.less_than(&current) {
                    self.min_version = Some(current);
                } else {
                    self.min_version = Some(min_version);
                }
            },
            None => {
                self.min_version = Some(min_version);
            },
        }
    }

    /// The state after the deleted crates of a name, given as their reuse
    /// times and minimum versions (as stored). A minimum version that does
    /// not parse is passed over.
    pub fn from_deleted_crates(rows: &Vec<(UtcTime, Option<String>)>) -> (s: Self)
        ensures
            s.available_at == latest_of(None, rows@.map_values(|r: (UtcTime, Option<String>)| r.0)),
            version_text(s.min_version) == highest_of(None, parsed_min_versions(rows@)),
    {
        let mut state = State::new();
        let ghost times = rows@.map_values(|r: (UtcTime, Option<String>)| r.0);
        let mut i: usize = 0;
        while i < rows.len()
            invariant
                i <= rows.len(),
                times == rows@.map_values(|r: (UtcTime, Option<String>)| r.0),
                state.available_at == latest_of(None, times.take(i as int)),
                version_text(state.min_version) == highest_of(
                    None,
                    parsed_min_versions(rows@.take(i as int)),
                ),
            decreases rows.len() - i,
        {
            let row = &rows[i];
            let ghost before = version_text(state.min_version);
            state.observe_available_at(row.0);
            proof {
                assert(rows@.take(i + 1).drop_last() =~= rows@.take(i as int));
                assert(rows@.take(i + 1).last() == rows@[i as int]);
            }
            if let Some(text) = &row.1 {
                if let Some(v) = SemVer::parse(text.as_str()) {
                    state.observe_min_version(v);
                    assert(parsed_min_versions(rows@.take(i + 1)) == parsed_min_versions(
                        rows@.take(i as int),
                    ).push(text@));
                    assert(parsed_min_versions(rows@.take(i as int)).push(text@).drop_last()
                        =~= parsed_min_versions(rows@.take(i as int)));
                    assert(version_text(state.min_version) == match before {
                        Some(c) => Some(greater_text(c, text@)),
                        None => Some(text@),
                    });
                    assert(version_text(state.min_version) == highest_of(
                        None,
                        parsed_min_versions(rows@.take(i + 1)),
                    ));
                } else {
                    assert(parsed_min_versions(rows@.take(i + 1)) == parsed_min_versions(
                        rows@.take(i as int),
                    ));
                }
            } else {
                assert(parsed_min_versions(rows@.take(i + 1)) == parsed_min_versions(
                    rows@.take(i as int),
                ));
            }
            assert(times.take(i + 1).drop_last() =~= times.take(i as int));
            assert(rows@.take(i + 1).drop_last() =~= rows@.take(i as int));
            assert(rows@.take(i + 1).last() == rows@[i as int]);
            i = i + 1;
        }
        assert(times.take(rows.len() as int) =~= times);
        assert(rows@.take(rows.len() as int) =~= rows@);
        state
    }

    /// Whether `version` of crate `name` may be published at `now`; the
    /// refusal lists each reason on a line of its own.
    pub fn into_result(self, name: &str, version: &SemVer, now: &UtcTime) -> (r: Result<
        (),
        String,
    >)
        ensures
            deletion_reasons(self, *version, *now).len() == 0 ==> r is Ok,
            deletion_reasons(self, *version, *now).len() > 0 ==> (r matches Err(text) && text@
                == deletion_error_text(name@, deletion_reasons(self, *version, *now))),
    {
        let mut messages: Vec<String> = Vec::new();
        if let Some(available_at) = &self.available_at {
            if now.before(available_at) {
                let mut m = owned("Reuse of this name will be available after ");
                let t = to_rfc3339_secs(available_at);
                push_str(&mut m, t.as_str());
                push_str(&mut m, ".");
                messages.push(m);
            }
        }
        if let Some(min_version) = &self.min_version {
            if version.less_than(min_version) {
                let mut m = owned(
                    "To avoid conflicts with previously published versions of this crate, the minimum version that can be published is ",
                );
                let d = min_version.to_display_string();
                push_str(&mut m, d.as_str());
                push_str(&mut m, ".");
                messages.push(m);
            }
        }
        assert(messages.deep_view() =~= deletion_reasons(self, *version, *now));
        if messages.len() == 0 {
            Ok(())
        } else {
            let mut text = owned("A crate with the name `");
            push_str(&mut text, name);
            push_str(&mut text, "` was previously deleted.\n\n* ");
            let joined = join_strings(&messages, "\n* ");
            push_str(&mut text, joined.as_str());
            Err(text)
        }
    }
}

/// The latest of the observed times comes no earlier than each of them, and
/// is one of them: the most restrictive reuse time wins, whatever the order
/// of the deletions.
pub proof fn lemma_latest_is_maximum(times: Seq<UtcTime>)
    requires
        times.len() > 0,
    ensures
        (latest_of(None, times) matches Some(t) && times.contains(t) && forall|i: int|
            0 <= i < times.len() ==> (#[trigger] times[i]).total_nanos() <= t.total_nanos()),
    decreases times.len(),
{
    if times.len() == 1 {
        assert(times.drop_last() =~= Seq::<UtcTime>::empty());
        assert(times.contains(times[0]));
    } else {
        lemma_latest_is_maximum(times.drop_last());
        let prev = latest_of(None, times.drop_last())->0;
        let t = later(prev, times.last());
        assert(latest_of(None, times) == Some(t));
        if t == prev {
            let k = choose|k: int| 0 <= k < times.drop_last().len() && times.drop_last()[k] == prev;
            assert(times[k] == prev);
        } else {
            assert(times[times.len() - 1] == t);
        }
        assert forall|i: int| 0 <= i < times.len() implies (#[trigger] times[i]).total_nanos()
            <= t.total_nanos() by {
            if i < times.len() - 1 {
                assert(times.drop_last()[i] == times[i]);
            }
        }
    }
}

/// Each call of [`State::observe_available_at`] extends the observed times
/// by one: the time kept after observing `times` and then `t` is the latest
/// of `times.push(t)`.
pub proof fn lemma_observing_extends_latest(start: Option<UtcTime>, times: Seq<UtcTime>, t: UtcTime)
    ensures
        latest_of(start, times.push(t)) == observed_available_at(latest_of(start, times), t),
{
    assert(times.push(t).drop_last() =~= times);
}

/// Observing reuse times one call after another, from a state with none,
/// keeps the latest of them whatever their order or repetition: two
/// sequences of the same times end with the same instant.
pub proof fn lemma_observation_order_does_not_matter(a: Seq<UtcTime>, b: Seq<UtcTime>)
    requires
        a.len() > 0,
        forall|t: UtcTime| a.contains(t) <==> b.contains(t),
    ensures
        latest_of(None, a) is Some,
        latest_of(None, b) is Some,
        latest_of(None, a)->0.total_nanos() == latest_of(None, b)->0.total_nanos(),
{
    assert(a.contains(a[0]));
    assert(b.contains(a[0]));
    lemma_latest_is_maximum(a);
    lemma_latest_is_maximum(b);
    let ta = latest_of(None, a)->0;
    let tb = latest_of(None, b)->0;
    assert(b.contains(ta));
    let kb = choose|k: int| 0 <= k < b.len() && b[k] == ta;
    assert(ta.total_nanos() <= tb.total_nanos()) by {
        assert(b[kb].total_nanos() <= tb.total_nanos());
    }
    assert(a.contains(tb));
    let ka = choose|k: int| 0 <= k < a.len() && a[k] == tb;
    assert(tb.total_nanos() <= ta.total_nanos()) by {
        assert(a[ka].total_nanos() <= ta.total_nanos());
    }
}

/// Whether `semver_less` orders the version texts as a strict weak order
/// (as `Ord` requires of `semver::Version`): irreflexive, transitive, and
/// with incomparability transitive.
pub open spec fn semver_order_is_strict_weak(texts: Seq<Seq<char>>) -> bool {
    &&& forall|i: int| 0 <= i < texts.len() ==> !semver_less(#[trigger] texts[i], texts[i])
    &&& forall|i: int, j: int, k: int|
        0 <= i < texts.len() && 0 <= j < texts.len() && 0 <= k < texts.len() && semver_less(
            #[trigger] texts[i],
            #[trigger] texts[j],
        ) && semver_less(texts[j], #[trigger] texts[k]) ==> semver_less(texts[i], texts[k])
    &&& forall|i: int, j: int, k: int|
        0 <= i < texts.len() && 0 <= j < texts.len() && 0 <= k < texts.len() && !semver_less(
            #[trigger] texts[i],
            #[trigger] texts[j],
        ) && !semver_less(texts[j], #[trigger] texts[k]) ==> !semver_less(texts[i], texts[k])
}

/// The highest of the observed minimum versions is one of them, and none
/// of them comes after it, whatever the order of the deletions: the most
/// restrictive minimum version wins (where semver's order is a strict weak
/// order, as `Ord` requires).
pub proof fn lemma_highest_is_maximum(texts: Seq<Seq<char>>)
    requires
        texts.len() > 0,
        semver_order_is_strict_weak(texts),
    ensures
        (highest_of(None, texts) matches Some(m) && texts.contains(m) && forall|i: int|
            0 <= i < texts.len() ==> !semver_less(m, #[trigger] texts[i])),
    decreases texts.len(),
{
    let n = texts.len();
    if n == 1 {
        assert(texts.drop_last() =~= Seq::<Seq<char>>::empty());
        assert(texts.contains(texts[0]));
        assert(!semver_less(texts[0], texts[0]));
    } else {
        let prev_seq = texts.drop_last();
        assert(semver_order_is_strict_weak(prev_seq)) by {
            assert forall|i: int, j: int, k: int|
                0 <= i < prev_seq.len() && 0 <= j < prev_seq.len() && 0 <= k < prev_seq.len()
                    && semver_less(#[trigger] prev_seq[i], #[trigger] prev_seq[j]) && semver_less(
                    prev_seq[j],
                    #[trigger] prev_seq[k],
                ) implies semver_less(prev_seq[i], prev_seq[k]) by {
                assert(semver_less(texts[i], texts[j]));
                assert(semver_less(texts[j], texts[k]));
            }
            assert forall|i: int, j: int, k: int|
                0 <= i < prev_seq.len() && 0 <= j < prev_seq.len() && 0 <= k < prev_seq.len()
                    && !semver_less(#[trigger] prev_seq[i], #[trigger] prev_seq[j]) && !semver_less(
                    prev_seq[j],
                    #[trigger] prev_seq[k],
                ) implies !semver_less(prev_seq[i], prev_seq[k]) by {
                assert(!semver_less(texts[i], texts[j]));
                assert(!semver_less(texts[j], texts[k]));
            }
            assert forall|i: int| 0 <= i < prev_seq.len() implies !semver_less(
                #[trigger] prev_seq[i],
                prev_seq[i],
            ) by {
                assert(!semver_less(texts[i], texts[i]));
            }
        }
        lemma_highest_is_maximum(prev_seq);
        let prev = highest_of(None, prev_seq)->0;
        let last = texts[n - 1];
        let m = greater_text(prev, last);
        assert(highest_of(None, texts) == Some(m));
        let p = choose|p: int| 0 <= p < prev_seq.len() && prev_seq[p] == prev;
        assert(texts[p] == prev);
        if semver_less(last, prev) {
            assert(m == prev);
            assert(texts.contains(m));
            assert forall|i: int| 0 <= i < n implies !semver_less(m, #[trigger] texts[i]) by {
                if i < n - 1 {
                    assert(!semver_less(prev, prev_seq[i]));
                } else {
                    if semver_less(prev, last) {
                        assert(semver_less(texts[p], texts[n - 1]));
                        assert(semver_less(texts[n - 1], texts[p]));
                        assert(semver_less(texts[p], texts[p]));
                    }
                }
            }
        } else {
            assert(m == last);
            assert(texts[n - 1] == m);
            assert(texts.contains(m));
            assert forall|i: int| 0 <= i < n implies !semver_less(m, #[trigger] texts[i]) by {
                if i < n - 1 {
                    assert(!semver_less(prev, prev_seq[i]));
                    assert(!semver_less(texts[n - 1], texts[p]));
                    assert(!semver_less(texts[p], texts[i]));
                } else {
                    assert(!semver_less(texts[n - 1], texts[n - 1]));
                }
            }
        }
    }
}

} // verus!
