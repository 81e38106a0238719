use vstd::prelude::*;
use vstd::string::*;

use crate::text::{decimal, push_decimal};

verus! {

/// Events reported by default when no limit is given.
pub const DEFAULT_EVENT_LIMIT: u32 = 20;

/// Longest wait for an event, in seconds.
pub const MAX_WAIT_SECS: u64 = 120;

/// Indices of the events at `lo` and above whose level is at least `min`,
/// newest (highest index) first.
pub open spec fn matching_newest_first(levels: Seq<u8>, min: u8, lo: int) -> Seq<int>
    decreases levels.len() - lo,
{
    if lo >= levels.len() || lo < 0 {
        Seq::empty()
    } else {
        let rest = matching_newest_first(levels, min, lo + 1);
        if levels[lo] >= min {
            rest.push(lo)
        } else {
            rest
        }
    }
}

/// The first `n` elements of `s` (all of `s` when it is shorter).
pub open spec fn keep_first<T>(s: Seq<T>, n: nat) -> Seq<T> {
    if s.len() <= n {
        s
    } else {
        s.subrange(0, n as int)
    }
}

/// The events a history query reports: the newest `limit` (default 20) of
/// those whose level is at least `min_level` (default 1), newest first.
pub open spec fn recent_selection(levels: Seq<u8>, min_level: Option<u8>, limit: Option<u32>) -> Seq<
    int,
> {
    let min = match min_level {
        Some(m) => m,
        None => 1u8,
    };
    let lim = match limit {
        Some(l) => l,
        None => DEFAULT_EVENT_LIMIT,
    };
    keep_first(matching_newest_first(levels, min, 0), lim as nat)
}

/// Picks the events a history query reports, given the levels of the kept
/// events (oldest first); returns their indices, newest first.
pub fn select_recent(levels: &Vec<u8>, min_level: Option<u8>, limit: Option<u32>) -> (picked: Vec<
    usize,
>)
    ensures
        picked@.map_values(|i: usize| i as int) == recent_selection(levels@, min_level, limit),
{
    let min = match min_level {
        Some(m) => m,
        None => 1u8,
    };
    let lim = match limit {
        Some(l) => l,
        None => DEFAULT_EVENT_LIMIT,
    };
    let mut picked: Vec<usize> = Vec::new();
    let mut i: usize = levels.len();
    while i > 0
        invariant
            i <= levels.len(),
            picked@.map_values(|k: usize| k as int) == keep_first(
                matching_newest_first(levels@, min, i as int),
                lim as nat,
            ),
        decreases i,
    {
        let ghost before = picked@;
        let j = i - 1;
        assert(matching_newest_first(levels@, min, j as int) == if levels@[j as int] >= min {
            matching_newest_first(levels@, min, i as int).push(j as int)
        } else {
            matching_newest_first(levels@, min, i as int)
        });
        if levels[j] >= min && (picked.len() as u64) < (lim as u64) {
            picked.push(j);
            assert(picked@.map_values(|k: usize| k as int) =~= before.map_values(
                |k: usize| k as int,
            ).push(j as int));
        }
        i = j;
        assert(picked@.map_values(|k: usize| k as int) =~= keep_first(
            matching_newest_first(levels@, min, i as int),
            lim as nat,
        ));
    }
    picked
}

proof fn matching_properties(levels: Seq<u8>, min: u8, lo: int)
    requires
        0 <= lo <= levels.len(),
    ensures
        ({
            let m = matching_newest_first(levels, min, lo);
            &&& forall|k: int| 0 <= k < m.len() ==> lo <= #[trigger] m[k] < levels.len()
                && levels[m[k]] >= min
            &&& forall|k: int, l: int| 0 <= k < l < m.len() ==> #[trigger] m[k] > #[trigger] m[l]
            &&& forall|j: int| lo <= j < levels.len() && levels[j] >= min ==> m.contains(j)
        }),
    decreases levels.len() - lo,
{
    if lo < levels.len() {
        matching_properties(levels, min, lo + 1);
        let rest = matching_newest_first(levels, min, lo + 1);
        let m = matching_newest_first(levels, min, lo);
        assert(m == if levels[lo] >= min {
            rest.push(lo)
        } else {
            rest
        });
        assert forall|j: int| lo <= j < levels.len() && levels[j] >= min implies m.contains(j) by {
            if j == lo {
                assert(m[m.len() - 1] == lo);
            } else {
                assert(lo + 1 <= j < levels.len() && levels[j] >= min);
                assert(rest.contains(j));
                let k = choose|k: int| 0 <= k < rest.len() && rest[k] == j;
                if levels[lo] >= min {
                    assert(m[k] == rest[k]);
                }
                assert(m[k] == j);
            }
        }
    }
}

/// A history query reports at most `limit` events, each of at least the
/// minimum level, newest first; when it reports fewer than `limit`, it
/// reports every event of at least the minimum level.
pub proof fn recent_selection_is_newest_matching(levels: Seq<u8>, min: u8, limit: u32)
    ensures
        ({
            let r = recent_selection(levels, Some(min), Some(limit));
            &&& r.len() <= limit
            &&& forall|k: int| 0 <= k < r.len() ==> 0 <= #[trigger] r[k] < levels.len()
                && levels[r[k]] >= min
            &&& forall|k: int, l: int| 0 <= k < l < r.len() ==> #[trigger] r[k] > #[trigger] r[l]
            &&& r.len() < limit ==> forall|j: int|
                0 <= j < levels.len() && levels[j] >= min ==> r.contains(j)
        }),
{
    matching_properties(levels, min, 0);
    let m = matching_newest_first(levels, min, 0);
    let r = recent_selection(levels, Some(min), Some(limit));
    assert forall|k: int| 0 <= k < r.len() implies 0 <= #[trigger] r[k] < levels.len()
        && levels[r[k]] >= min by {
        assert(r[k] == m[k]);
    }
    assert forall|k: int, l: int| 0 <= k < l < r.len() implies #[trigger] r[k] > #[trigger] r[l] by {
        assert(r[k] == m[k] && r[l] == m[l]);
    }
}

/// How long to wait for an event (30 s by default, at most 120 s) and the
/// lowest level that ends the wait (4 by default).
pub open spec fn wait_limits_for(timeout_secs: Option<u64>, min_level: Option<u8>) -> (u64, u8) {
    let t = match timeout_secs {
        Some(t) => t,
        None => 30u64,
    };
    (
        if t < MAX_WAIT_SECS {
            t
        } else {
            MAX_WAIT_SECS
        },
        match min_level {
            Some(m) => m,
            None => 4u8,
        },
    )
}

pub fn wait_limits(timeout_secs: Option<u64>, min_level: Option<u8>) -> (r: (u64, u8))
    ensures
        r == wait_limits_for(timeout_secs, min_level),
        r.0 <= MAX_WAIT_SECS,
{
    let t = match timeout_secs {
        Some(t) => t,
        None => 30,
    };
    let secs = if t < MAX_WAIT_SECS {
        t
    } else {
        MAX_WAIT_SECS
    };
    let min = match min_level {
        Some(m) => m,
        None => 4,
    };
    (secs, min)
}

/// A configuration update that was refused.
#[derive(Debug, Clone, Copy, PartialEq, Eq, Structural)]
pub enum SetConfigError {
    /// The minimum level must lie in 1..=6.
    MinLevelOutOfRange,
}

impl SetConfigError {
    pub fn message(&self) -> (m: &'static str)
        ensures
            m@ == "min_level must be 1-6"@,
    {
        proof {
            reveal_strlit("min_level must be 1-6");
        }
        "min_level must be 1-6"
    }
}

/// The change entries of an update, in the order min_level, cooldown_ms,
/// min_slap_amp, min_shake_amp, each as "name=value".
pub open spec fn change_entries(
    min_level: Option<u8>,
    cooldown_ms: Option<u64>,
    min_slap_amp: Option<Seq<char>>,
    min_shake_amp: Option<Seq<char>>,
) -> Seq<Seq<char>> {
    let a: Seq<Seq<char>> = match min_level {
        Some(v) => seq!["min_level="@ + decimal(v as nat)],
        None => Seq::empty(),
    };
    let b: Seq<Seq<char>> = match cooldown_ms {
        Some(v) => seq!["cooldown_ms="@ + decimal(v as nat)],
        None => Seq::empty(),
    };
    let c: Seq<Seq<char>> = match min_slap_amp {
        Some(v) => seq!["min_slap_amp="@ + v],
        None => Seq::empty(),
    };
    let d: Seq<Seq<char>> = match min_shake_amp {
        Some(v) => seq!["min_shake_amp="@ + v],
        None => Seq::empty(),
    };
    a + b + c + d
}

/// The entries joined with ", ".
pub open spec fn joined(entries: Seq<Seq<char>>) -> Seq<char>
    decreases entries.len(),
{
    if entries.len() == 0 {
        Seq::empty()
    } else if entries.len() == 1 {
        entries[0]
    } else {
        joined(entries.drop_last()) + ", "@ + entries.last()
    }
}

/// The reply to a configuration update.
pub open spec fn set_config_text(entries: Seq<Seq<char>>) -> Seq<char> {
    if entries.len() == 0 {
        "No changes specified"@
    } else {
        "Updated: "@ + joined(entries)
    }
}

pub open spec fn opt_text(o: Option<&str>) -> Option<Seq<char>> {
    match o {
        Some(s) => Some(s@),
        None => None,
    }
}

fn push_entry(out: &mut String, count: &mut usize, entry: &String, ghost_entries: Ghost<Seq<Seq<char>>>)
    requires
        *old(count) == ghost_entries@.len(),
        ghost_entries@.len() > 0 ==> old(out)@ == joined(ghost_entries@),
        ghost_entries@.len() == 0 ==> old(out)@ == Seq::<char>::empty(),
        *old(count) < usize::MAX,
    ensures
        *final(count) == *old(count) + 1,
        final(out)@ == joined(ghost_entries@.push(entry@)),
{
    proof {
        reveal_strlit(", ");
    }
    if *count > 0 {
        out.append(", ");
    }
    out.append(entry.as_str());
    *count = *count + 1;
    proof {
        let e = ghost_entries@.push(entry@);
        assert(e.drop_last() =~= ghost_entries@);
        if ghost_entries@.len() == 0 {
            assert(out@ =~= joined(e));
        }
    }
}

/// Checks a configuration update and words the reply. `min_slap_amp` and
/// `min_shake_amp` are the new amplitudes as written by `f64`'s `Display`.
/// A minimum level outside 1..=6 refuses the whole update.
pub fn set_config_reply(
    min_level: Option<u8>,
    cooldown_ms: Option<u64>,
    min_slap_amp: Option<&str>,
    min_shake_amp: Option<&str>,
) -> (r: Result<String, SetConfigError>)
    ensures
        (min_level matches Some(v) && !(1 <= v <= 6)) ==> r == Err::<String, SetConfigError>(
            SetConfigError::MinLevelOutOfRange,
        ),
        !(min_level matches Some(v) && !(1 <= v <= 6)) ==> (r matches Ok(text) && text@
            == set_config_text(
            change_entries(min_level, cooldown_ms, opt_text(min_slap_amp), opt_text(min_shake_amp)),
        )),
{
    proof {
        reveal_strlit("min_level=");
        reveal_strlit("cooldown_ms=");
        reveal_strlit("min_slap_amp=");
        reveal_strlit("min_shake_amp=");
        reveal_strlit("No changes specified");
        reveal_strlit("Updated: ");
    }
    match min_level {
        Some(v) => {
            if !(1 <= v && v <= 6) {
                return Err(SetConfigError::MinLevelOutOfRange);
            }
        },
        None => {},
    }
    let mut list = String::new();
    let mut count: usize = 0;
    let ghost mut entries: Seq<Seq<char>> = Seq::empty();
    match min_level {
        Some(v) => {
            let mut e = String::from_str("min_level=");
            push_decimal(&mut e, v as u64);
            push_entry(&mut list, &mut count, &e, Ghost(entries));
            proof {
                entries = entries.push(e@);
            }
        },
        None => {},
    }
    match cooldown_ms {
        Some(v) => {
            let mut e = String::from_str("cooldown_ms=");
            push_decimal(&mut e, v);
            push_entry(&mut list, &mut count, &e, Ghost(entries));
            proof {
                entries = entries.push(e@);
            }
        },
        None => {},
    }
    match min_slap_amp {
        Some(v) => {
            let e = String::from_str("min_slap_amp=").concat(v);
            push_entry(&mut list, &mut count, &e, Ghost(entries));
            proof {
                entries = entries.push(e@);
            }
        },
        None => {},
    }
    match min_shake_amp {
        Some(v) => {
            let e = String::from_str("min_shake_amp=").concat(v);
            push_entry(&mut list, &mut count, &e, Ghost(entries));
            proof {
                entries = entries.push(e@);
            }
        },
        None => {},
    }
    assert(entries =~= change_entries(
        min_level,
        cooldown_ms,
        opt_text(min_slap_amp),
        opt_text(min_shake_amp),
    ));
    if count == 0 {
        Ok(String::from_str("No changes specified"))
    } else {
        Ok(String::from_str("Updated: ").concat(list.as_str()))
    }
}

/// Whether `part` occurs in `whole` as a contiguous piece.
pub open spec fn occurs_in(part: Seq<char>, whole: Seq<char>) -> bool {
    exists|k: int| 0 <= k <= whole.len() - part.len() && #[trigger] whole.subrange(k, k + part.len()) == part
}

/// Every entry appears, whole, in the joined list.
pub proof fn joined_holds_every_entry(entries: Seq<Seq<char>>, i: int)
    requires
        0 <= i < entries.len(),
    ensures
        occurs_in(entries[i], joined(entries)),
    decreases entries.len(),
{
    let j = joined(entries);
    if entries.len() == 1 {
        assert(j == entries[0]);
        let k = 0int;
        assert(j.subrange(k, k + entries[i].len()) =~= entries[i]);
        assert(occurs_in(entries[i], j));
    } else {
        let pre = entries.drop_last();
        let jp = joined(pre);
        assert(j == jp + ", "@ + entries.last());
        if i == entries.len() - 1 {
            let k = j.len() - entries.last().len();
            assert(j.subrange(k, k + entries[i].len()) =~= entries[i]);
            assert(occurs_in(entries[i], j));
        } else {
            joined_holds_every_entry(pre, i);
            assert(pre[i] == entries[i]);
            let k = choose|k: int|
                0 <= k <= jp.len() - pre[i].len() && #[trigger] jp.subrange(k, k + pre[i].len())
                    == pre[i];
            assert(j.subrange(k, k + entries[i].len()) =~= jp.subrange(k, k + pre[i].len()));
            assert(occurs_in(entries[i], j));
        }
    }
}

/// A configuration update reports one entry per given field, each on its own
/// and whatever else is given: "min_level=<v>", "cooldown_ms=<v>",
/// "min_slap_amp=<v>", "min_shake_amp=<v>". The reply lists every entry after
/// "Updated: ", or says "No changes specified" when no field is given.
pub proof fn every_given_field_is_reported(
    min_level: Option<u8>,
    cooldown_ms: Option<u64>,
    min_slap_amp: Option<Seq<char>>,
    min_shake_amp: Option<Seq<char>>,
)
    ensures
        ({
            let e = change_entries(min_level, cooldown_ms, min_slap_amp, min_shake_amp);
            let text = set_config_text(e);
            &&& e.len() == (if min_level is Some { 1int } else { 0 }) + (if cooldown_ms is Some {
                1int
            } else {
                0
            }) + (if min_slap_amp is Some {
                1int
            } else {
                0
            }) + (if min_shake_amp is Some {
                1int
            } else {
                0
            })
            &&& (min_level matches Some(v) ==> e.contains("min_level="@ + decimal(v as nat)))
            &&& (cooldown_ms matches Some(v) ==> e.contains("cooldown_ms="@ + decimal(v as nat)))
            &&& (min_slap_amp matches Some(v) ==> e.contains("min_slap_amp="@ + v))
            &&& (min_shake_amp matches Some(v) ==> e.contains("min_shake_amp="@ + v))
            &&& (e.len() == 0 ==> text == "No changes specified"@)
            &&& (e.len() > 0 ==> text.subrange(0, 9) == "Updated: "@ && forall|i: int|
                0 <= i < e.len() ==> occurs_in(#[trigger] e[i], text.subrange(9, text.len() as int)))
        }),
{
    reveal_strlit("Updated: ");
    let e = change_entries(min_level, cooldown_ms, min_slap_amp, min_shake_amp);
    let text = set_config_text(e);
    match min_level {
        Some(v) => {
            assert(e[0] == "min_level="@ + decimal(v as nat));
        },
        None => {},
    }
    match cooldown_ms {
        Some(v) => {
            let k: int = if min_level is Some { 1 } else { 0 };
            assert(e[k] == "cooldown_ms="@ + decimal(v as nat));
        },
        None => {},
    }
    match min_slap_amp {
        Some(v) => {
            let k: int = (if min_level is Some { 1int } else { 0 }) + (if cooldown_ms is Some { 1int } else { 0 });
            assert(e[k] == "min_slap_amp="@ + v);
        },
        None => {},
    }
    match min_shake_amp {
        Some(v) => {
            assert(e[e.len() - 1] == "min_shake_amp="@ + v);
        },
        None => {},
    }
    if e.len() > 0 {
        assert(text.subrange(0, 9) =~= "Updated: "@);
        assert(text.subrange(9, text.len() as int) =~= joined(e));
        assert forall|i: int| 0 <= i < e.len() implies occurs_in(#[trigger] e[i], text.subrange(9, text.len() as int)) by {
            joined_holds_every_entry(e, i);
        }
    }
}

} // verus!
