use vstd::prelude::*;
use vstd::string::*;

use crate::detector::{
    severity_level, EventKind, Severity, SAMPLE_RATE_HZ, WARMUP_SAMPLES,
};
use crate::detector::events::EventLog;
use crate::detector::ring::keep_last;
use crate::text::{decimal, push_decimal, push_repeated, repeated};

verus! {

/// Quiet samples after warmup before events are published (1 s).
pub const ARMING_SAMPLES: usize = SAMPLE_RATE_HZ;

/// Number of published events kept for later queries.
pub const MAX_RECENT_EVENTS: usize = 100;

/// Width of the progress bars, in characters.
pub const BAR_WIDTH: u64 = 25;

/// Detector phase for external visibility.
#[derive(Debug, Clone, Copy, PartialEq, Eq, Structural, Hash)]
pub enum DetectorPhase {
    Warmup,
    Arming,
    Ready,
}

/// The phase of the detector after `processed` samples: warming up for the
/// first 200, arming for the next 100, ready from then on.
pub open spec fn phase_after(processed: nat) -> DetectorPhase {
    if processed < WARMUP_SAMPLES {
        DetectorPhase::Warmup
    } else if processed < WARMUP_SAMPLES + ARMING_SAMPLES {
        DetectorPhase::Arming
    } else {
        DetectorPhase::Ready
    }
}

pub fn phase_for(processed: usize) -> (p: DetectorPhase)
    ensures
        p == phase_after(processed as nat),
{
    if processed < WARMUP_SAMPLES {
        DetectorPhase::Warmup
    } else if processed < WARMUP_SAMPLES + ARMING_SAMPLES {
        DetectorPhase::Arming
    } else {
        DetectorPhase::Ready
    }
}

/// Whether events may be published after `processed` samples.
pub fn is_armed(processed: usize) -> (armed: bool)
    ensures
        armed == (phase_after(processed as nat) == DetectorPhase::Ready),
{
    processed >= WARMUP_SAMPLES + ARMING_SAMPLES
}

/// Tenths of a second (rounded up) that `remaining` samples take.
pub open spec fn remaining_tenths(remaining: nat) -> nat {
    ((remaining * 10 + SAMPLE_RATE_HZ - 1) as nat) / (SAMPLE_RATE_HZ as nat)
}

/// Cells of a bar of `BAR_WIDTH` filled once `tenths` of `total` are left.
pub open spec fn filled_cells(total: nat, tenths: nat) -> nat {
    let done: nat = if tenths <= total {
        (total - tenths) as nat
    } else {
        0
    };
    let denom: nat = if total > 1 {
        total
    } else {
        1
    };
    done * (BAR_WIDTH as nat) / denom
}

/// `tenths` tenths of a second written with one decimal, like "1.5".
pub open spec fn tenths_text(tenths: nat) -> Seq<char> {
    decimal(tenths / 10) + "."@ + decimal(tenths % 10)
}

/// A redrawn progress line: clears the terminal line and shows the bar and
/// the time left.
pub open spec fn progress_text(label: Seq<char>, total: nat, tenths: nat) -> Seq<char> {
    let filled = filled_cells(total, tenths);
    "\r\x1b[2K"@ + label + ": ["@ + repeated("#"@, filled) + repeated(
        "-"@,
        (BAR_WIDTH - filled) as nat,
    ) + "] "@ + tenths_text(tenths) + "s remaining"@
}

/// The line shown once the detector is ready.
pub open spec fn ready_text() -> Seq<char> {
    "\r\x1b[2Kdetector: ["@ + repeated("#"@, BAR_WIDTH as nat) + "] ready\n"@
}

/// What the progress display has shown so far.
pub struct ProgressDisplay {
    pub warmup_last_tenths: Option<u64>,
    pub arming_last_tenths: Option<u64>,
    pub ready_logged: bool,
}

pub open spec fn warmup_total_tenths() -> nat {
    remaining_tenths(WARMUP_SAMPLES as nat)
}

pub open spec fn arming_total_tenths() -> nat {
    remaining_tenths(ARMING_SAMPLES as nat)
}

/// The display after `processed` samples, and the text it writes: a line is
/// written only when the shown time left changes, and the ready line once.
pub open spec fn progress_step(d: ProgressDisplay, processed: nat) -> (ProgressDisplay, Option<
    Seq<char>,
>) {
    if processed < WARMUP_SAMPLES {
        let t = remaining_tenths((WARMUP_SAMPLES - processed) as nat);
        if d.warmup_last_tenths == Some(t as u64) {
            (d, None)
        } else {
            (
                ProgressDisplay { warmup_last_tenths: Some(t as u64), ..d },
                Some(progress_text("warmup"@, warmup_total_tenths(), t)),
            )
        }
    } else if processed < WARMUP_SAMPLES + ARMING_SAMPLES {
        let t = remaining_tenths((WARMUP_SAMPLES + ARMING_SAMPLES - processed) as nat);
        if d.arming_last_tenths == Some(t as u64) {
            (d, None)
        } else {
            (
                ProgressDisplay { arming_last_tenths: Some(t as u64), ..d },
                Some(progress_text("arming"@, arming_total_tenths(), t)),
            )
        }
    } else if !d.ready_logged {
        (ProgressDisplay { ready_logged: true, ..d }, Some(ready_text()))
    } else {
        (d, None)
    }
}

fn push_tenths(out: &mut String, tenths: u64)
    ensures
        final(out)@ == old(out)@ + tenths_text(tenths as nat),
{
    proof {
        reveal_strlit(".");
    }
    push_decimal(out, tenths / 10);
    out.append(".");
    push_decimal(out, tenths % 10);
    assert(out@ =~= old(out)@ + tenths_text(tenths as nat));
}

fn progress_line(label: &str, total: u64, tenths: u64) -> (line: String)
    requires
        total == warmup_total_tenths() || total == arming_total_tenths(),
        tenths <= total,
    ensures
        line@ == progress_text(label@, total as nat, tenths as nat),
{
    proof {
        reveal_strlit("\r\x1b[2K");
        reveal_strlit(": [");
        reveal_strlit("#");
        reveal_strlit("-");
        reveal_strlit("] ");
        reveal_strlit("s remaining");
    }
    let done = total - tenths;
    let denom = if total > 1 {
        total
    } else {
        1
    };
    let filled = done * BAR_WIDTH / denom;
    assert(filled <= BAR_WIDTH) by (nonlinear_arith)
        requires
            done <= denom,
            denom >= 1,
            filled as int == (done * BAR_WIDTH) as int / denom as int,
            BAR_WIDTH == 25,
    ;
    let mut line = String::from_str("\r\x1b[2K");
    line.append(label);
    line.append(": [");
    push_repeated(&mut line, "#", filled);
    push_repeated(&mut line, "-", BAR_WIDTH - filled);
    line.append("] ");
    push_tenths(&mut line, tenths);
    line.append("s remaining");
    assert(line@ =~= progress_text(label@, total as nat, tenths as nat));
    line
}

fn ready_line() -> (line: String)
    ensures
        line@ == ready_text(),
{
    proof {
        reveal_strlit("\r\x1b[2Kdetector: [");
        reveal_strlit("#");
        reveal_strlit("] ready\n");
    }
    let mut line = String::from_str("\r\x1b[2Kdetector: [");
    push_repeated(&mut line, "#", BAR_WIDTH);
    line.append("] ready\n");
    assert(line@ =~= ready_text());
    line
}

impl ProgressDisplay {
    pub fn new() -> (d: Self)
        ensures
            d.warmup_last_tenths is None,
            d.arming_last_tenths is None,
            !d.ready_logged,
    {
        ProgressDisplay { warmup_last_tenths: None, arming_last_tenths: None, ready_logged: false }
    }

    /// Advances the display to `processed` samples; returns the text to write
    /// to the terminal, if the display changed.
    pub fn update(&mut self, processed: usize) -> (text: Option<String>)
        ensures
            *final(self) == progress_step(*old(self), processed as nat).0,
            text matches Some(t) ==> progress_step(*old(self), processed as nat).1 == Some(t@),
            text is None ==> progress_step(*old(self), processed as nat).1 is None,
    {
        proof {
            reveal_strlit("warmup");
            reveal_strlit("arming");
        }
        if processed < WARMUP_SAMPLES {
            let remaining = (WARMUP_SAMPLES - processed) as u64;
            let tenths = (remaining * 10 + 99) / 100;
            if self.warmup_last_tenths == Some(tenths) {
                None
            } else {
                self.warmup_last_tenths = Some(tenths);
                Some(progress_line("warmup", 20, tenths))
            }
        } else if processed < WARMUP_SAMPLES + ARMING_SAMPLES {
            let remaining = (WARMUP_SAMPLES + ARMING_SAMPLES - processed) as u64;
            let tenths = (remaining * 10 + 99) / 100;
            if self.arming_last_tenths == Some(tenths) {
                None
            } else {
                self.arming_last_tenths = Some(tenths);
                Some(progress_line("arming", 10, tenths))
            }
        } else if !self.ready_logged {
            self.ready_logged = true;
            Some(ready_line())
        } else {
            None
        }
    }
}

/// How an event's amplitude compares with the publishing floors.
#[derive(Debug, Clone, Copy, PartialEq, Eq, Structural)]
pub struct AmplitudeChecks {
    /// The amplitude is under the typing guard's floor of 30 milli-g.
    pub below_typing_floor: bool,
    /// The amplitude is under the configured minimum for slaps.
    pub below_min_slap: bool,
    /// The amplitude is under the configured minimum for shakes.
    pub below_min_shake: bool,
}

/// Why the detection loop does or does not publish an event.
#[derive(Debug, Clone, Copy, PartialEq, Eq, Structural)]
pub enum Verdict {
    Publish,
    /// Detected during warmup or arming (within the first 300 samples).
    NotArmed,
    /// Only slaps and shakes are published.
    NotSlapOrShake,
    /// The event's level is under the configured minimum level.
    BelowMinLevel,
    /// A slap without a PEAK report and under the typing floor.
    TypingGuard,
    /// Under the configured minimum amplitude for its kind.
    BelowMinAmplitude,
    /// Too soon after the last published event.
    CoolingDown,
}

/// Whether some source is named "PEAK".
pub open spec fn reports_peak(sources: Seq<String>) -> bool {
    exists|i: int| 0 <= i < sources.len() && sources[i]@ == "PEAK"@
}

/// Whether an event detected at the `sample`-th sample (counting from 1)
/// comes after warmup and arming: the first 200 + 100 samples never publish.
pub open spec fn detected_when_armed(sample: nat) -> bool {
    sample > WARMUP_SAMPLES + ARMING_SAMPLES
}

/// The publishing decision for an event detected at the `sample`-th sample
/// (counting from 1), checked in this order: arming, kind, level, typing
/// guard, amplitude floor, cooldown.
pub open spec fn verdict_for(
    sample: nat,
    kind: EventKind,
    severity: Severity,
    has_peak: bool,
    amp: AmplitudeChecks,
    min_level: u8,
    since_last_publish_ms: u128,
    cooldown_ms: u64,
) -> Verdict {
    if !detected_when_armed(sample) {
        Verdict::NotArmed
    } else if kind == EventKind::Unknown {
        Verdict::NotSlapOrShake
    } else if severity_level(severity) < min_level {
        Verdict::BelowMinLevel
    } else if kind == EventKind::Slap && !has_peak && amp.below_typing_floor {
        Verdict::TypingGuard
    } else if kind == EventKind::Slap && amp.below_min_slap {
        Verdict::BelowMinAmplitude
    } else if kind == EventKind::Shake && amp.below_min_shake {
        Verdict::BelowMinAmplitude
    } else if since_last_publish_ms < cooldown_ms {
        Verdict::CoolingDown
    } else {
        Verdict::Publish
    }
}

/// Whether some source is named "PEAK".
pub fn has_peak_source(sources: &Vec<String>) -> (b: bool)
    ensures
        b == reports_peak(sources@),
{
    let peak = String::from_str("PEAK");
    let mut i: usize = 0;
    while i < sources.len()
        invariant
            i <= sources.len(),
            peak@ == "PEAK"@,
            forall|j: int| 0 <= j < i ==> sources@[j]@ != "PEAK"@,
        decreases sources.len() - i,
    {
        if sources[i] == peak {
            return true;
        }
        i = i + 1;
    }
    false
}

/// Decides whether the detection loop publishes an event detected at the
/// `sample`-th sample the detector processed (counting from 1).
/// `since_last_publish_ms` is the whole number of milliseconds since the last
/// published event.
pub fn publish_verdict(
    sample: usize,
    kind: EventKind,
    severity: Severity,
    sources: &Vec<String>,
    amp: AmplitudeChecks,
    min_level: u8,
    since_last_publish_ms: u128,
    cooldown_ms: u64,
) -> (v: Verdict)
    ensures
        v == verdict_for(
            sample as nat,
            kind,
            severity,
            reports_peak(sources@),
            amp,
            min_level,
            since_last_publish_ms,
            cooldown_ms,
        ),
{
    if sample <= WARMUP_SAMPLES + ARMING_SAMPLES {
        return Verdict::NotArmed;
    }
    match kind {
        EventKind::Unknown => {
            return Verdict::NotSlapOrShake;
        },
        _ => {},
    }
    if severity.level() < min_level {
        return Verdict::BelowMinLevel;
    }
    match kind {
        EventKind::Slap => {
            if !has_peak_source(sources) && amp.below_typing_floor {
                return Verdict::TypingGuard;
            }
            if amp.below_min_slap {
                return Verdict::BelowMinAmplitude;
            }
        },
        _ => {
            if amp.below_min_shake {
                return Verdict::BelowMinAmplitude;
            }
        },
    }
    if since_last_publish_ms < cooldown_ms as u128 {
        return Verdict::CoolingDown;
    }
    Verdict::Publish
}

/// Nothing detected within the first 200 warmup and 100 arming samples is
/// published, no event of unknown
/// kind and no event under the minimum level is published, a slap needs a
/// PEAK report or 30 milli-g, and a published event comes at least the
/// cooldown after the previous one.
pub proof fn published_events_pass_every_guard(
    sample: nat,
    kind: EventKind,
    severity: Severity,
    sources: Seq<String>,
    amp: AmplitudeChecks,
    min_level: u8,
    since_last_publish_ms: u128,
    cooldown_ms: u64,
)
    requires
        verdict_for(
            sample,
            kind,
            severity,
            reports_peak(sources),
            amp,
            min_level,
            since_last_publish_ms,
            cooldown_ms,
        ) == Verdict::Publish,
    ensures
        sample > WARMUP_SAMPLES + ARMING_SAMPLES,
        phase_after(sample) == DetectorPhase::Ready,
        kind != EventKind::Unknown,
        severity_level(severity) >= min_level,
        kind == EventKind::Slap ==> reports_peak(sources) || !amp.below_typing_floor,
        kind == EventKind::Slap ==> !amp.below_min_slap,
        kind == EventKind::Shake ==> !amp.below_min_shake,
        since_last_publish_ms >= cooldown_ms,
{
}

/// The progress bars fill up as the time left shrinks: empty at the start of
/// a phase, full when nothing is left, and never emptier later.
pub proof fn progress_bar_fills_up(total: nat, t1: nat, t2: nat)
    requires
        total == warmup_total_tenths() || total == arming_total_tenths(),
        t1 <= t2 <= total,
    ensures
        filled_cells(total, t2) <= filled_cells(total, t1) <= BAR_WIDTH,
        filled_cells(total, 0) == BAR_WIDTH,
        filled_cells(total, total) == 0,
{
    assert(warmup_total_tenths() == 20);
    assert(arming_total_tenths() == 10);
    let d1 = (total - t1) as nat;
    let d2 = (total - t2) as nat;
    assert(d2 * 25 <= d1 * 25) by (nonlinear_arith)
        requires
            d2 <= d1,
    ;
    vstd::arithmetic::div_mod::lemma_div_is_ordered((d2 * 25) as int, (d1 * 25) as int, total as int);
    assert(d1 * 25 <= total * 25) by (nonlinear_arith)
        requires
            d1 <= total,
    ;
    vstd::arithmetic::div_mod::lemma_div_is_ordered((d1 * 25) as int, (total * 25) as int, total as int);
    assert((total * 25) / total == 25) by (nonlinear_arith)
        requires
            total > 0,
    ;
}

/// Each kind is held to its own amplitude floor only: a slap's verdict does
/// not depend on the shake minimum, and a shake's depends neither on the slap
/// minimum nor on the typing guard or a PEAK report. An event past arming, of
/// at least the minimum level, over its kind's floor (and, for a slap, with a
/// PEAK report or above the typing floor) and outside the cooldown is
/// published.
pub proof fn each_kind_meets_its_own_floor(
    sample: nat,
    severity: Severity,
    has_peak: bool,
    amp: AmplitudeChecks,
    min_level: u8,
    since_last_publish_ms: u128,
    cooldown_ms: u64,
)
    ensures
        verdict_for(sample, EventKind::Slap, severity, has_peak, amp, min_level, since_last_publish_ms, cooldown_ms)
            == verdict_for(
            sample,
            EventKind::Slap,
            severity,
            has_peak,
            AmplitudeChecks { below_min_shake: !amp.below_min_shake, ..amp },
            min_level,
            since_last_publish_ms,
            cooldown_ms,
        ),
        verdict_for(sample, EventKind::Shake, severity, has_peak, amp, min_level, since_last_publish_ms, cooldown_ms)
            == verdict_for(
            sample,
            EventKind::Shake,
            severity,
            !has_peak,
            AmplitudeChecks {
                below_min_slap: !amp.below_min_slap,
                below_typing_floor: !amp.below_typing_floor,
                ..amp
            },
            min_level,
            since_last_publish_ms,
            cooldown_ms,
        ),
        (sample > WARMUP_SAMPLES + ARMING_SAMPLES && severity_level(severity) >= min_level
            && since_last_publish_ms >= cooldown_ms) ==> {
            &&& ((has_peak || !amp.below_typing_floor) && !amp.below_min_slap ==> verdict_for(
                sample,
                EventKind::Slap,
                severity,
                has_peak,
                amp,
                min_level,
                since_last_publish_ms,
                cooldown_ms,
            ) == Verdict::Publish)
            &&& (!amp.below_min_shake ==> verdict_for(
                sample,
                EventKind::Shake,
                severity,
                has_peak,
                amp,
                min_level,
                since_last_publish_ms,
                cooldown_ms,
            ) == Verdict::Publish)
        },
{
}

/// The phase only moves forward: warmup, then arming, then ready.
pub proof fn phase_never_goes_back(p1: nat, p2: nat)
    requires
        p1 <= p2,
    ensures
        phase_after(p1) == DetectorPhase::Ready ==> phase_after(p2) == DetectorPhase::Ready,
        phase_after(p1) == DetectorPhase::Arming ==> phase_after(p2) != DetectorPhase::Warmup,
{
}

/// The history of published events kept for queries: of everything
/// published so far, the newest 100, oldest first. Each published event is
/// kept, once, until 100 newer ones follow it.
pub struct RecentEvents<T> {
    log: EventLog<T>,
    published: Ghost<Seq<T>>,
}

impl<T> View for RecentEvents<T> {
    type V = Seq<T>;

    closed spec fn view(&self) -> Seq<T> {
        self.log@
    }
}

impl<T> RecentEvents<T> {
    /// Every event recorded so far, oldest first.
    pub closed spec fn published(&self) -> Seq<T> {
        self.published@
    }

    /// The kept events are the newest 100 of all published ones.
    pub closed spec fn well_formed(&self) -> bool {
        &&& self.log.well_formed()
        &&& self.log.capacity() == MAX_RECENT_EVENTS
        &&& self.log@ == keep_last(self.published@, MAX_RECENT_EVENTS as nat)
    }

    pub fn new() -> (r: Self)
        ensures
            r.published() == Seq::<T>::empty(),
            r@ == Seq::<T>::empty(),
            r@ == keep_last(r.published(), MAX_RECENT_EVENTS as nat),
            r.well_formed(),
    {
        RecentEvents { log: EventLog::new(MAX_RECENT_EVENTS), published: Ghost(Seq::empty()) }
    }

    /// Records a published event, forgetting the oldest kept one when 100
    /// are kept already.
    pub fn record(&mut self, e: T)
        requires
            old(self).well_formed(),
        ensures
            final(self).well_formed(),
            final(self).published() == old(self).published().push(e),
            final(self)@ == keep_last(old(self)@.push(e), MAX_RECENT_EVENTS as nat),
            final(self)@ == keep_last(final(self).published(), MAX_RECENT_EVENTS as nat),
            final(self)@.len() <= MAX_RECENT_EVENTS,
    {
        proof {
            crate::detector::ring::ring_holds_latest(
                self.published@,
                e,
                MAX_RECENT_EVENTS as nat,
            );
        }
        self.log.push(e);
        self.published = Ghost(self.published@.push(e));
    }

    /// The kept events, oldest first.
    pub fn items(&self) -> (v: &Vec<T>)
        ensures
            v@ == self@,
    {
        self.log.items()
    }

    pub fn len(&self) -> (n: usize)
        ensures
            n == self@.len(),
    {
        self.log.len()
    }
}

/// The limits of the publishing decision that an update can change.
#[derive(Debug, Clone, Copy, PartialEq, Eq, Structural)]
pub struct PublishLimits {
    /// Least time between published events, in milliseconds.
    pub cooldown_ms: u64,
    /// Least level of a published event.
    pub min_level: u8,
}

impl PublishLimits {
    /// Applies an accepted update: each given value replaces the current one.
    pub fn apply(&mut self, min_level: Option<u8>, cooldown_ms: Option<u64>)
        ensures
            final(self).min_level == match min_level {
                Some(v) => v,
                None => old(self).min_level,
            },
            final(self).cooldown_ms == match cooldown_ms {
                Some(v) => v,
                None => old(self).cooldown_ms,
            },
    {
        match min_level {
            Some(v) => {
                self.min_level = v;
            },
            None => {},
        }
        match cooldown_ms {
            Some(v) => {
                self.cooldown_ms = v;
            },
            None => {},
        }
    }
}

} // verus!
