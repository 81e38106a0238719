pub mod events;
pub mod ring;

use events::EventLog;

use std::cmp::Ordering;
use vstd::prelude::*;
use vstd::std_specs::cmp::PartialOrdSpecImpl;

verus! {

/// Severity levels for detected events, from the faintest to the strongest.
#[derive(Debug, Clone, Copy, PartialEq, Eq, Structural, Ord, Hash)]
pub enum Severity {
    MicroVib,
    VibLegere,
    Vibration,
    MicroChoc,
    ChocMoyen,
    ChocMajeur,
}

/// The numeric level of a severity: 1 (faintest) to 6 (strongest).
pub open spec fn severity_level(s: Severity) -> u8 {
    match s {
        Severity::MicroVib => 1,
        Severity::VibLegere => 2,
        Severity::Vibration => 3,
        Severity::MicroChoc => 4,
        Severity::ChocMoyen => 5,
        Severity::ChocMajeur => 6,
    }
}

/// The published name of a severity.
pub open spec fn severity_name(s: Severity) -> Seq<char> {
    match s {
        Severity::MicroVib => "MICRO_VIB"@,
        Severity::VibLegere => "VIB_LEGERE"@,
        Severity::Vibration => "VIBRATION"@,
        Severity::MicroChoc => "MICRO_CHOC"@,
        Severity::ChocMoyen => "CHOC_MOYEN"@,
        Severity::ChocMajeur => "CHOC_MAJEUR"@,
    }
}

impl Severity {
    pub fn as_str(&self) -> (s: &'static str)
        ensures
            s@ == severity_name(*self),
    {
        match self {
            Severity::MicroVib => "MICRO_VIB",
            Severity::VibLegere => "VIB_LEGERE",
            Severity::Vibration => "VIBRATION",
            Severity::MicroChoc => "MICRO_CHOC",
            Severity::ChocMoyen => "CHOC_MOYEN",
            Severity::ChocMajeur => "CHOC_MAJEUR",
        }
    }

    pub fn level(&self) -> (l: u8)
        ensures
            l == severity_level(*self),
            1 <= l <= 6,
    {
        match self {
            Severity::MicroVib => 1,
            Severity::VibLegere => 2,
            Severity::Vibration => 3,
            Severity::MicroChoc => 4,
            Severity::ChocMoyen => 5,
            Severity::ChocMajeur => 6,
        }
    }
}

/// Severities are ordered by level.
pub open spec fn severity_order(a: Severity, b: Severity) -> Option<Ordering> {
    if severity_level(a) < severity_level(b) {
        Some(Ordering::Less)
    } else if severity_level(a) == severity_level(b) {
        Some(Ordering::Equal)
    } else {
        Some(Ordering::Greater)
    }
}

impl PartialOrd for Severity {
    fn partial_cmp(&self, other: &Self) -> (r: Option<Ordering>) {
        let a = self.level();
        let b = other.level();
        if a < b {
            Some(Ordering::Less)
        } else if a == b {
            Some(Ordering::Equal)
        } else {
            Some(Ordering::Greater)
        }
    }
}

impl PartialOrdSpecImpl for Severity {
    open spec fn obeys_partial_cmp_spec() -> bool {
        true
    }

    open spec fn partial_cmp_spec(&self, other: &Self) -> Option<Ordering> {
        severity_order(*self, *other)
    }
}

/// The order of severities is the order of their levels, from MICRO_VIB up
/// to CHOC_MAJEUR, and only equal severities compare equal.
pub proof fn severity_order_follows_level(a: Severity, b: Severity)
    ensures
        severity_order(a, b) == Some(Ordering::Less) <==> severity_level(a) < severity_level(b),
        severity_order(a, b) == Some(Ordering::Greater) <==> severity_level(a) > severity_level(b),
        severity_order(a, b) == Some(Ordering::Equal) <==> a == b,
{
}

/// Sample rate of the detector input, in Hz (after decimation).
pub const SAMPLE_RATE_HZ: usize = 100;

/// Samples during which the filters and running averages settle (2 s).
pub const WARMUP_SAMPLES: usize = 200;

/// Number of events the detector keeps until they are drained.
pub const MAX_DETECTOR_EVENTS: usize = 500;

/// The detector's log of pending events: it keeps the newest 500 until they
/// are drained.
pub fn detector_event_log<T>() -> (log: EventLog<T>)
    ensures
        log.well_formed(),
        log.capacity() == MAX_DETECTOR_EVENTS,
        log@ == Seq::<T>::empty(),
{
    EventLog::new(MAX_DETECTOR_EVENTS)
}

/// The kind of a detected event, told apart by how long the STA/LTA trigger
/// has been active: a slap is a short spike, a shake a sustained oscillation.
#[derive(Debug, Clone, Copy, PartialEq, Eq, Structural, Hash)]
pub enum EventKind {
    Slap,
    Shake,
    Unknown,
}

/// Duration in milliseconds of `samples` samples at the detector's rate.
pub open spec fn activation_ms(samples: nat) -> nat {
    samples * 1000 / (SAMPLE_RATE_HZ as nat)
}

/// Under 100 ms of activation is a slap, over 200 ms a shake, and anything in
/// between is left unknown.
pub open spec fn kind_for_activation(samples: nat) -> EventKind {
    if activation_ms(samples) < 100 {
        EventKind::Slap
    } else if activation_ms(samples) > 200 {
        EventKind::Shake
    } else {
        EventKind::Unknown
    }
}

pub open spec fn kind_name(k: EventKind) -> Seq<char> {
    match k {
        EventKind::Slap => "SLAP"@,
        EventKind::Shake => "SHAKE"@,
        EventKind::Unknown => "UNKNOWN"@,
    }
}

impl EventKind {
    pub fn as_str(&self) -> (s: &'static str)
        ensures
            s@ == kind_name(*self),
    {
        match self {
            EventKind::Slap => "SLAP",
            EventKind::Shake => "SHAKE",
            EventKind::Unknown => "UNKNOWN",
        }
    }

    /// The kind of an event whose STA/LTA trigger has been active for
    /// `samples` consecutive samples.
    pub fn from_activation(samples: usize) -> (k: EventKind)
        ensures
            k == kind_for_activation(samples as nat),
    {
        if samples < 10 {
            EventKind::Slap
        } else if samples > 20 {
            EventKind::Shake
        } else {
            EventKind::Unknown
        }
    }
}

/// One STA/LTA channel's hysteresis: a channel that is off switches on (and
/// reports) when its ratio rises above the on-threshold, and a channel that
/// is not switching on switches off when its ratio falls below the
/// off-threshold. Returns the new state and whether it reported.
pub open spec fn channel_step(was_active: bool, above_on: bool, below_off: bool) -> (bool, bool) {
    if above_on && !was_active {
        (true, true)
    } else if below_off {
        (false, false)
    } else {
        (was_active, false)
    }
}

fn step_channel(was_active: bool, above_on: bool, below_off: bool) -> (r: (bool, bool))
    ensures
        r == channel_step(was_active, above_on, below_off),
{
    if above_on && !was_active {
        (true, true)
    } else if below_off {
        (false, false)
    } else {
        (was_active, false)
    }
}

/// The STA/LTA triggers of the three timescales, and for how many
/// consecutive samples at least one of them has been on.
pub struct StaLtaTriggers {
    pub active: [bool; 3],
    pub run: usize,
}

impl StaLtaTriggers {
    pub fn new() -> (t: Self)
        ensures
            t.active@ == seq![false, false, false],
            t.run == 0,
    {
        StaLtaTriggers { active: [false, false, false], run: 0 }
    }

    /// Advances the triggers by one sample, given for each timescale whether
    /// its ratio is above the on-threshold and below the off-threshold.
    /// Returns how many channels switched on (each one reports).
    pub fn update(&mut self, above_on: [bool; 3], below_off: [bool; 3]) -> (reports: usize)
        ensures
            forall|i: int|
                0 <= i < 3 ==> final(self).active@[i] == channel_step(
                    old(self).active@[i],
                    above_on@[i],
                    below_off@[i],
                ).0,
            reports == (if channel_step(old(self).active@[0], above_on@[0], below_off@[0]).1 {
                1usize
            } else {
                0usize
            }) + (if channel_step(old(self).active@[1], above_on@[1], below_off@[1]).1 {
                1usize
            } else {
                0usize
            }) + (if channel_step(old(self).active@[2], above_on@[2], below_off@[2]).1 {
                1usize
            } else {
                0usize
            }),
            (final(self).active@[0] || final(self).active@[1] || final(self).active@[2])
                ==> final(self).run == if old(self).run == usize::MAX {
                usize::MAX
            } else {
                (old(self).run + 1) as usize
            },
            !(final(self).active@[0] || final(self).active@[1] || final(self).active@[2])
                ==> final(self).run == 0,
    {
        let (a0, r0) = step_channel(self.active[0], above_on[0], below_off[0]);
        let (a1, r1) = step_channel(self.active[1], above_on[1], below_off[1]);
        let (a2, r2) = step_channel(self.active[2], above_on[2], below_off[2]);
        self.active = [a0, a1, a2];
        let mut reports: usize = 0;
        if r0 {
            reports = reports + 1;
        }
        if r1 {
            reports = reports + 1;
        }
        if r2 {
            reports = reports + 1;
        }
        if a0 || a1 || a2 {
            self.run = self.run.saturating_add(1);
        } else {
            self.run = 0;
        }
        assert(self.active@ =~= seq![a0, a1, a2]);
        reports
    }
}

/// An STA/LTA channel reports once per activation: while it is on it cannot
/// report again, and it only reports by switching on.
pub proof fn trigger_reports_once_per_activation(above_on: bool, below_off: bool, was_active: bool)
    ensures
        was_active ==> !channel_step(was_active, above_on, below_off).1,
        channel_step(was_active, above_on, below_off).1 ==> channel_step(
            was_active,
            above_on,
            below_off,
        ).0,
{
}

/// The detection algorithms that can report a disturbance.
#[derive(Debug, Clone, Copy, PartialEq, Eq, Structural, Hash)]
pub enum DetectionSource {
    StaLta,
    Cusum,
    Kurtosis,
    Peak,
}

pub open spec fn source_name(s: DetectionSource) -> Seq<char> {
    match s {
        DetectionSource::StaLta => "STA/LTA"@,
        DetectionSource::Cusum => "CUSUM"@,
        DetectionSource::Kurtosis => "KURTOSIS"@,
        DetectionSource::Peak => "PEAK"@,
    }
}

impl DetectionSource {
    pub fn as_str(&self) -> (s: &'static str)
        ensures
            s@ == source_name(*self),
    {
        match self {
            DetectionSource::StaLta => "STA/LTA",
            DetectionSource::Cusum => "CUSUM",
            DetectionSource::Kurtosis => "KURTOSIS",
            DetectionSource::Peak => "PEAK",
        }
    }
}

/// The sources in order of first report, each once.
pub open spec fn unique_sources(s: Seq<DetectionSource>) -> Seq<DetectionSource>
    decreases s.len(),
{
    if s.len() == 0 {
        s
    } else {
        let u = unique_sources(s.drop_last());
        if u.contains(s.last()) {
            u
        } else {
            u.push(s.last())
        }
    }
}

/// The severity of an event reported by the (distinct) detectors `unique`,
/// where `band` is the number of the amplitude thresholds 1, 3, 5, 20 and 50
/// milli-g that the event's amplitude exceeds.
pub open spec fn severity_for(unique: Seq<DetectionSource>, band: u8) -> Severity {
    let ns = unique.len();
    if ns >= 4 && band >= 5 {
        Severity::ChocMajeur
    } else if ns >= 3 && band >= 4 {
        Severity::ChocMoyen
    } else if unique.contains(DetectionSource::Peak) && band >= 3 {
        Severity::MicroChoc
    } else if (unique.contains(DetectionSource::StaLta) || unique.contains(DetectionSource::Cusum))
        && band >= 2 {
        Severity::Vibration
    } else if band >= 1 {
        Severity::VibLegere
    } else {
        Severity::MicroVib
    }
}

/// Removes repeated sources, keeping the order of first report.
pub fn dedup_sources(sources: &Vec<DetectionSource>) -> (unique: Vec<DetectionSource>)
    ensures
        unique@ == unique_sources(sources@),
        unique@.no_duplicates(),
{
    let mut unique: Vec<DetectionSource> = Vec::new();
    let mut i: usize = 0;
    while i < sources.len()
        invariant
            i <= sources.len(),
            unique@ == unique_sources(sources@.subrange(0, i as int)),
            unique@.no_duplicates(),
        decreases sources.len() - i,
    {
        let s = sources[i];
        assert(sources@.subrange(0, i + 1 as int).drop_last() =~= sources@.subrange(0, i as int));
        let mut seen = false;
        let mut j: usize = 0;
        while j < unique.len()
            invariant
                j <= unique.len(),
                seen <==> unique@.subrange(0, j as int).contains(s),
            decreases unique.len() - j,
        {
            let here = unique[j] == s;
            if here {
                seen = true;
            }
            proof {
                let pre = unique@.subrange(0, j as int);
                let post = unique@.subrange(0, j + 1 as int);
                assert(post =~= pre.push(unique@[j as int]));
                if here {
                    assert(post[j as int] == s);
                } else {
                    assert forall|x: DetectionSource| post.contains(x) implies pre.contains(x)
                        || x == unique@[j as int] by {
                        let k = choose|k: int| 0 <= k < post.len() && post[k] == x;
                        if k < j {
                            assert(pre[k] == x);
                        }
                    }
                    if pre.contains(s) {
                        let k = choose|k: int| 0 <= k < pre.len() && pre[k] == s;
                        assert(post[k] == s);
                    }
                }
            }
            j = j + 1;
        }
        assert(unique@.subrange(0, j as int) =~= unique@);
        if !seen {
            unique.push(s);
        }
        i = i + 1;
    }
    assert(sources@.subrange(0, sources.len() as int) =~= sources@);
    unique
}

/// Classifies a detection: the distinct sources that reported it, and its
/// severity.
pub fn classify(sources: &Vec<DetectionSource>, band: u8) -> (r: (Severity, Vec<DetectionSource>))
    ensures
        r.1@ == unique_sources(sources@),
        r.0 == severity_for(unique_sources(sources@), band),
{
    let unique = dedup_sources(sources);
    let ns = unique.len();
    let has_peak = contains_source(&unique, DetectionSource::Peak);
    let has_sta = contains_source(&unique, DetectionSource::StaLta);
    let has_cusum = contains_source(&unique, DetectionSource::Cusum);
    let severity = if ns >= 4 && band >= 5 {
        Severity::ChocMajeur
    } else if ns >= 3 && band >= 4 {
        Severity::ChocMoyen
    } else if has_peak && band >= 3 {
        Severity::MicroChoc
    } else if (has_sta || has_cusum) && band >= 2 {
        Severity::Vibration
    } else if band >= 1 {
        Severity::VibLegere
    } else {
        Severity::MicroVib
    };
    (severity, unique)
}

/// Whether `sources` holds `s`.
pub fn contains_source(sources: &Vec<DetectionSource>, s: DetectionSource) -> (b: bool)
    ensures
        b == sources@.contains(s),
{
    let mut i: usize = 0;
    while i < sources.len()
        invariant
            i <= sources.len(),
            forall|j: int| 0 <= j < i ==> sources@[j] != s,
        decreases sources.len() - i,
    {
        if sources[i] == s {
            return true;
        }
        i = i + 1;
    }
    false
}

/// Whether the kurtosis window is due for evaluation: every 10 samples once
/// it holds at least 50 samples.
pub fn kurtosis_due(since_last: usize, filled: usize) -> (b: bool)
    ensures
        b == (since_last >= 10 && filled >= 50),
{
    since_last >= 10 && filled >= 50
}

/// Whether the peak/MAD window is due for evaluation: on every tenth sample
/// once it holds at least 50 samples.
pub fn peak_due(filled: usize, sample_count: usize) -> (b: bool)
    ensures
        b == (filled >= 50 && sample_count % 10 == 0),
{
    filled >= 50 && sample_count % 10 == 0
}

/// Each severity has its own level, and the levels run from 1 to 6.
pub proof fn severity_levels_are_distinct(a: Severity, b: Severity)
    ensures
        1 <= severity_level(a) <= 6,
        severity_level(a) == severity_level(b) <==> a == b,
        severity_name(a) == severity_name(b) ==> a == b,
{
    reveal_strlit("MICRO_VIB");
    reveal_strlit("VIB_LEGERE");
    reveal_strlit("VIBRATION");
    reveal_strlit("MICRO_CHOC");
    reveal_strlit("CHOC_MOYEN");
    reveal_strlit("CHOC_MAJEUR");
    if severity_name(a) == severity_name(b) && a != b {
        assert(severity_name(a).len() != severity_name(b).len() || severity_name(a)[0]
            != severity_name(b)[0] || severity_name(a)[1] != severity_name(b)[1]
            || severity_name(a)[6] != severity_name(b)[6]);
    }
}

/// The severity of an event never drops when its amplitude crosses more
/// thresholds.
pub proof fn severity_grows_with_amplitude(unique: Seq<DetectionSource>, band1: u8, band2: u8)
    requires
        band1 <= band2,
    ensures
        severity_level(severity_for(unique, band1)) <= severity_level(severity_for(unique, band2)),
{
}

/// The severity of an event never drops when more detectors report it: a set
/// of distinct detectors that includes another's classifies at least as high.
pub proof fn severity_grows_with_detectors(u1: Seq<DetectionSource>, u2: Seq<DetectionSource>, band: u8)
    requires
        u1.no_duplicates(),
        u2.no_duplicates(),
        forall|s: DetectionSource| u1.contains(s) ==> u2.contains(s),
    ensures
        severity_level(severity_for(u1, band)) <= severity_level(severity_for(u2, band)),
{
    u1.unique_seq_to_set();
    u2.unique_seq_to_set();
    assert(u1.to_set().subset_of(u2.to_set()));
    vstd::set_lib::lemma_len_subset(u1.to_set(), u2.to_set());
}

/// Deduplication keeps exactly the reported detectors, each once.
pub proof fn unique_sources_are_the_reported_ones(reports: Seq<DetectionSource>)
    ensures
        unique_sources(reports).no_duplicates(),
        forall|x: DetectionSource|
            unique_sources(reports).contains(x) <==> reports.contains(x),
        unique_sources(reports).len() == reports.to_set().len(),
    decreases reports.len(),
{
    let u = unique_sources(reports);
    if reports.len() > 0 {
        let pre = reports.drop_last();
        unique_sources_are_the_reported_ones(pre);
        let up = unique_sources(pre);
        assert forall|x: DetectionSource| reports.contains(x) <==> pre.contains(x) || x
            == reports.last() by {
            if reports.contains(x) {
                let k = choose|k: int| 0 <= k < reports.len() && reports[k] == x;
                if k < reports.len() - 1 {
                    assert(pre[k] == x);
                }
            }
            if pre.contains(x) {
                let k = choose|k: int| 0 <= k < pre.len() && pre[k] == x;
                assert(reports[k] == x);
            }
            if x == reports.last() {
                assert(reports[reports.len() - 1] == x);
            }
        }
        if !up.contains(reports.last()) {
            assert forall|x: DetectionSource| u.contains(x) <==> up.contains(x) || x
                == reports.last() by {
                if u.contains(x) {
                    let k = choose|k: int| 0 <= k < u.len() && u[k] == x;
                    if k < up.len() {
                        assert(up[k] == x);
                    }
                }
                if up.contains(x) {
                    let k = choose|k: int| 0 <= k < up.len() && up[k] == x;
                    assert(u[k] == x);
                }
                if x == reports.last() {
                    assert(u[u.len() - 1] == x);
                }
            }
        }
    }
    assert(u.to_set() =~= reports.to_set());
    u.unique_seq_to_set();
}

/// The severity table: 4 or more distinct detectors above 50 milli-g give
/// CHOC_MAJEUR; otherwise 3 or more above 20 milli-g give CHOC_MOYEN,
/// whichever detectors they are; below that, PEAK above 5 milli-g gives
/// MICRO_CHOC, STA/LTA or CUSUM above 3 milli-g VIBRATION, anything above
/// 1 milli-g VIB_LEGERE, and the rest MICRO_VIB. `band` counts the amplitude
/// thresholds exceeded, `reports` the detections (repeats allowed).
pub proof fn severity_follows_agreement_and_amplitude(reports: Seq<DetectionSource>, band: u8)
    ensures
        ({
            let n = reports.to_set().len();
            let sev = severity_for(unique_sources(reports), band);
            let strong = n >= 3 && band >= 4;
            let peak = reports.contains(DetectionSource::Peak) && band >= 3;
            let motion = (reports.contains(DetectionSource::StaLta) || reports.contains(
                DetectionSource::Cusum,
            )) && band >= 2;
            &&& (n >= 4 && band >= 5 ==> sev == Severity::ChocMajeur)
            &&& (strong && !(n >= 4 && band >= 5) ==> sev == Severity::ChocMoyen)
            &&& (!strong && peak ==> sev == Severity::MicroChoc)
            &&& (!strong && !peak && motion ==> sev == Severity::Vibration)
            &&& (!strong && !peak && !motion && band >= 1 ==> sev == Severity::VibLegere)
            &&& (band == 0 ==> sev == Severity::MicroVib)
        }),
{
    unique_sources_are_the_reported_ones(reports);
}

} // verus!
