//! Frame timing and the periodic performance report.
//!
//! Clock readings are whole nanoseconds. Simulation time is counted in ticks of
//! a third of a nanosecond: the coarsest unit in which both a clock reading and
//! the nominal frame of a sixtieth of a second are whole numbers.

use vstd::prelude::*;

verus! {

/// Ticks in a nanosecond.
pub const TICKS_PER_NANO: u64 = 3;

/// Ticks in a second.
pub const TICKS_PER_SECOND: u64 = 3_000_000_000;

/// Ticks in the nominal frame, a sixtieth of a second.
pub const NOMINAL_FRAME_TICKS: u64 = 50_000_000;

/// A report is due once the simulation time exceeds two seconds.
pub const REPORT_THRESHOLD_TICKS: u64 = 6_000_000_000;

/// The time by which one frame advances the simulation: the time measured
/// since the frame before, or the nominal frame where nothing was measured.
#[derive(Clone, Copy, Debug, PartialEq, Eq)]
pub struct Delta {
    // Zero stands for the nominal frame.
    nanos: u64,
}

impl Delta {
    /// The measured nanoseconds, or `None` for the nominal frame.
    pub closed spec fn measured(self) -> Option<u64> {
        if self.nanos == 0 {
            None
        } else {
            Some(self.nanos)
        }
    }

    /// The nanoseconds that lie between two clock readings, if the clock has
    /// advanced at all. A frame counts as measured from a tenth of a
    /// nanosecond on; between readings in whole nanoseconds that is one
    /// nanosecond or more. A clock that stands still or runs backwards has
    /// measured nothing.
    pub open spec fn elapsed(last: u64, now: u64) -> Option<u64> {
        if now > last {
            Some((now - last) as u64)
        } else {
            None
        }
    }

    /// The ticks that stand for a measurement.
    pub open spec fn ticks_of(measured: Option<u64>) -> nat {
        match measured {
            Some(nanos) => (TICKS_PER_NANO * nanos) as nat,
            None => NOMINAL_FRAME_TICKS as nat,
        }
    }

    /// The length of the frame in ticks.
    pub open spec fn ticks(self) -> nat {
        Delta::ticks_of(self.measured())
    }

    /// The delta that stands for a measurement. A measurement of nothing, or
    /// of zero nanoseconds, gives the nominal frame.
    pub closed spec fn of(measured: Option<u64>) -> Delta {
        match measured {
            Some(nanos) => Delta { nanos },
            None => Delta { nanos: 0 },
        }
    }

    /// A measured delta is never zero, and two deltas that measure the same
    /// are the same.
    pub proof fn lemma_measured(self, other: Delta)
        ensures
            self.measured() matches Some(nanos) ==> nanos > 0,
            self.ticks() >= TICKS_PER_NANO,
            self.measured() == other.measured() ==> self == other,
            Delta::of(self.measured()) == self,
    {
    }

    /// What the delta of a measurement measures: the measurement itself,
    /// unless that is zero.
    pub proof fn lemma_of(measured: Option<u64>)
        ensures
            Delta::of(measured).measured() == match measured {
                Some(nanos) => if nanos > 0 {
                    Some(nanos)
                } else {
                    None::<u64>
                },
                None => None::<u64>,
            },
    {
    }

    /// The nominal frame.
    pub fn nominal() -> (delta: Delta)
        ensures
            delta == Delta::of(None),
            delta.measured() == None::<u64>,
    {
        Delta { nanos: 0 }
    }

    /// The delta that stands for `nanos` measured nanoseconds: the nominal
    /// frame where `nanos` is zero.
    pub fn from_nanos(nanos: u64) -> (delta: Delta)
        ensures
            delta == Delta::of(Some(nanos)),
            delta.measured() == if nanos > 0 {
                Some(nanos)
            } else {
                None::<u64>
            },
    {
        Delta { nanos }
    }

    /// The delta of a frame that starts at the reading `now`, when the frame
    /// before started at `last`.
    pub fn between(last: u64, now: u64) -> (delta: Delta)
        ensures
            delta == Delta::of(Delta::elapsed(last, now)),
            delta.measured() == Delta::elapsed(last, now),
    {
        if now > last {
            Delta { nanos: now - last }
        } else {
            Delta { nanos: 0 }
        }
    }

    /// The measured nanoseconds, or `None` for the nominal frame.
    pub fn nanos(&self) -> (nanos: Option<u64>)
        ensures
            nanos == self.measured(),
    {
        if self.nanos == 0 {
            None
        } else {
            Some(self.nanos)
        }
    }

    /// Whether this is the nominal frame.
    pub fn is_nominal(&self) -> (nominal: bool)
        ensures
            nominal == (self.measured() is None),
    {
        self.nanos == 0
    }

    /// The length of the frame in ticks.
    pub fn tick_count(&self) -> (ticks: u128)
        ensures
            ticks == self.ticks(),
    {
        if self.nanos == 0 {
            NOMINAL_FRAME_TICKS as u128
        } else {
            3 * (self.nanos as u128)
        }
    }
}

/// What the accumulator had gathered when a report fell due.
#[derive(Clone, Copy, Debug, PartialEq, Eq)]
pub struct Report {
    /// The frames since the report before.
    pub frames: u64,
    /// The simulation time of those frames, in ticks.
    pub sim_ticks: u128,
    /// The time spent in their update phases, in nanoseconds.
    pub cpu_nanos: i128,
}

/// The sums that the accumulator holds.
pub struct TelemetryModel {
    pub sim_ticks: nat,
    pub cpu_nanos: int,
    pub frames: nat,
}

/// Accumulates simulation time, update time and frames from one report to the
/// next.
#[derive(Debug)]
pub struct Telemetry {
    sim_ticks: u64,
    cpu_nanos: i128,
    frames: u64,
}

/// The quotient of `a` by a positive `b`, rounded towards zero.
pub open spec fn quotient_towards_zero(a: int, b: int) -> int {
    if a >= 0 {
        a / b
    } else {
        -((-a) / b)
    }
}

impl TelemetryModel {
    /// The empty accumulator.
    pub open spec fn zero() -> TelemetryModel {
        TelemetryModel { sim_ticks: 0, cpu_nanos: 0, frames: 0 }
    }

    /// What an accumulator between two frames never exceeds: it holds at most
    /// two seconds, in frames of a nanosecond or more, each with an update
    /// phase between two readings of a 64-bit clock.
    pub open spec fn wf(self) -> bool {
        &&& self.sim_ticks <= REPORT_THRESHOLD_TICKS
        &&& TICKS_PER_NANO * self.frames <= self.sim_ticks
        &&& -(self.frames * 0x1_0000_0000_0000_0000) <= self.cpu_nanos
        &&& self.cpu_nanos <= self.frames * 0x1_0000_0000_0000_0000
    }

    /// The sums with one more frame of `ticks` ticks, whose update phase ran
    /// from the reading `started` to the reading `ended`.
    pub open spec fn gathered(self, ticks: nat, started: u64, ended: u64) -> TelemetryModel {
        TelemetryModel {
            sim_ticks: self.sim_ticks + ticks,
            cpu_nanos: self.cpu_nanos + (ended - started),
            frames: self.frames + 1,
        }
    }

    /// Whether the sums call for a report.
    pub open spec fn due(self) -> bool {
        self.sim_ticks > REPORT_THRESHOLD_TICKS
    }

    /// The sums as a report.
    pub open spec fn as_report(self) -> Report {
        Report {
            frames: self.frames as u64,
            sim_ticks: self.sim_ticks as u128,
            cpu_nanos: self.cpu_nanos as i128,
        }
    }

    /// The report that one more frame brings, if it brings one.
    pub open spec fn report(self, ticks: nat, started: u64, ended: u64) -> Option<Report> {
        let sums = self.gathered(ticks, started, ended);
        if sums.due() {
            Some(sums.as_report())
        } else {
            None
        }
    }

    /// The accumulator after one more frame: emptied where the frame brought
    /// a report.
    pub open spec fn after(self, ticks: nat, started: u64, ended: u64) -> TelemetryModel {
        let sums = self.gathered(ticks, started, ended);
        if sums.due() {
            TelemetryModel::zero()
        } else {
            sums
        }
    }
}

/// One frame as the accumulator sees it: its length in ticks and the two
/// clock readings that enclose its update phase.
pub struct FrameSample {
    pub ticks: nat,
    pub started: u64,
    pub ended: u64,
}

impl TelemetryModel {
    /// The sums of a run of frames, with no report taken.
    pub open spec fn sums_of(samples: Seq<FrameSample>) -> TelemetryModel
        decreases samples.len(),
    {
        if samples.len() == 0 {
            TelemetryModel::zero()
        } else {
            let last = samples.last();
            TelemetryModel::sums_of(samples.drop_last()).gathered(
                last.ticks,
                last.started,
                last.ended,
            )
        }
    }

    /// The accumulator after a run of frames, from the first to the last.
    pub open spec fn after_frames(self, samples: Seq<FrameSample>) -> TelemetryModel
        decreases samples.len(),
    {
        if samples.len() == 0 {
            self
        } else {
            let last = samples.last();
            self.after_frames(samples.drop_last()).after(last.ticks, last.started, last.ended)
        }
    }

    /// While a run of frames stays within two seconds, an accumulator that
    /// started empty holds the sums of the run.
    pub proof fn lemma_sums_within_threshold(samples: Seq<FrameSample>)
        requires
            TelemetryModel::sums_of(samples).sim_ticks <= REPORT_THRESHOLD_TICKS,
        ensures
            TelemetryModel::zero().after_frames(samples) == TelemetryModel::sums_of(samples),
            TelemetryModel::sums_of(samples).frames == samples.len(),
        decreases samples.len(),
    {
        if samples.len() > 0 {
            TelemetryModel::lemma_sums_within_threshold(samples.drop_last());
        }
    }

    /// The frame with which a run that started from an empty accumulator first
    /// exceeds two seconds brings a report. The report counts every frame of
    /// the run and holds their summed simulation and update times, and the
    /// accumulator is empty again right after.
    pub proof fn law_report_at_threshold(samples: Seq<FrameSample>)
        requires
            samples.len() >= 1,
            TelemetryModel::sums_of(samples.drop_last()).sim_ticks <= REPORT_THRESHOLD_TICKS,
            TelemetryModel::sums_of(samples).sim_ticks > REPORT_THRESHOLD_TICKS,
        ensures
            ({
                let last = samples.last();
                let before = TelemetryModel::zero().after_frames(samples.drop_last());
                &&& before.report(last.ticks, last.started, last.ended) == Some(
                    TelemetryModel::sums_of(samples).as_report(),
                )
                &&& TelemetryModel::sums_of(samples).frames == samples.len()
                &&& TelemetryModel::zero().after_frames(samples) == TelemetryModel::zero()
            }),
    {
        TelemetryModel::lemma_sums_within_threshold(samples.drop_last());
    }

    /// A frame that leaves the simulation time at two seconds or less brings
    /// no report and is added to the sums.
    pub proof fn law_no_report_within_threshold(self, ticks: nat, started: u64, ended: u64)
        requires
            self.sim_ticks + ticks <= REPORT_THRESHOLD_TICKS,
        ensures
            self.report(ticks, started, ended) == None::<Report>,
            self.after(ticks, started, ended) == self.gathered(ticks, started, ended),
    {
    }
}

impl View for Telemetry {
    type V = TelemetryModel;

    closed spec fn view(&self) -> TelemetryModel {
        TelemetryModel {
            sim_ticks: self.sim_ticks as nat,
            cpu_nanos: self.cpu_nanos as int,
            frames: self.frames as nat,
        }
    }
}

impl Telemetry {
    #[verifier::type_invariant]
    spec fn inv(&self) -> bool {
        self@.wf()
    }

    /// The empty accumulator.
    pub fn new() -> (telemetry: Telemetry)
        ensures
            telemetry@ == TelemetryModel::zero(),
    {
        Telemetry { sim_ticks: 0, cpu_nanos: 0, frames: 0 }
    }

    /// The simulation time gathered since the last report, in ticks.
    pub fn sim_ticks(&self) -> (ticks: u64)
        ensures
            ticks == self@.sim_ticks,
            self@.wf(),
    {
        proof {
            use_type_invariant(self);
        }
        self.sim_ticks
    }

    /// The update time gathered since the last report, in nanoseconds.
    pub fn cpu_nanos(&self) -> (nanos: i128)
        ensures
            nanos == self@.cpu_nanos,
            self@.wf(),
    {
        proof {
            use_type_invariant(self);
        }
        self.cpu_nanos
    }

    /// The frames gathered since the last report.
    pub fn frames(&self) -> (frames: u64)
        ensures
            frames == self@.frames,
            self@.wf(),
    {
        proof {
            use_type_invariant(self);
        }
        self.frames
    }

    /// Adds one frame of length `delta`, whose update phase ran from the clock
    /// reading `started` to the reading `ended`. Once the simulation time
    /// exceeds two seconds the sums come back as a report and the accumulator
    /// starts again from zero.
    pub fn record(&mut self, delta: Delta, started: u64, ended: u64) -> (report: Option<Report>)
        ensures
            final(self)@.wf(),
            final(self)@ == old(self)@.after(delta.ticks(), started, ended),
            report == old(self)@.report(delta.ticks(), started, ended),
            report matches Some(r) ==> r.well_formed(),
    {
        proof {
            use_type_invariant(&*self);
            delta.lemma_measured(delta);
        }
        let sim: u128 = (self.sim_ticks as u128) + delta.tick_count();
        let cpu: i128 = self.cpu_nanos + ((ended as i128) - (started as i128));
        let frames: u64 = self.frames + 1;
        if sim > (REPORT_THRESHOLD_TICKS as u128) {
            *self = Telemetry { sim_ticks: 0, cpu_nanos: 0, frames: 0 };
            Some(Report { frames, sim_ticks: sim, cpu_nanos: cpu })
        } else {
            *self = Telemetry { sim_ticks: sim as u64, cpu_nanos: cpu, frames };
            None
        }
    }
}

impl Report {
    /// What holds of every report that an accumulator gives: it covers more
    /// than two seconds, in one frame or more, of which all but the last fit
    /// into two seconds at a nanosecond or more each.
    pub open spec fn well_formed(self) -> bool {
        &&& self.frames >= 1
        &&& self.sim_ticks > REPORT_THRESHOLD_TICKS
        &&& TICKS_PER_NANO * (self.frames - 1) <= REPORT_THRESHOLD_TICKS
    }

    /// For a report that an accumulator gives, each of the three figures
    /// exists: the frames per second, at most a little over one for each
    /// nanosecond, fit their type.
    pub proof fn law_figures_exist(self)
        requires
            self.well_formed(),
        ensures
            0 <= self.spec_fps_milli() <= 1_000_000_000_500,
            self.spec_fps_milli() <= u64::MAX,
            0 <= self.spec_frame_micros(),
    {
        let scaled = 3_000_000_000_000 * self.frames;
        let sim = self.sim_ticks as int;
        assert(1000 * TICKS_PER_SECOND * self.frames == scaled) by (nonlinear_arith)
            requires
                TICKS_PER_SECOND == 3_000_000_000,
                scaled == 3_000_000_000_000 * self.frames,
        ;
        assert(scaled <= 3_000_000_000_000 * 2_000_000_001);
        assert(scaled / sim <= scaled / 6_000_000_000) by (nonlinear_arith)
            requires
                scaled >= 0,
                sim > 6_000_000_000,
        ;
        assert(scaled / sim >= 0) by (nonlinear_arith)
            requires
                scaled >= 0,
                sim > 0,
        ;
        let per_micro = 3000 * self.frames;
        assert(1000 * TICKS_PER_NANO * self.frames == per_micro) by (nonlinear_arith)
            requires
                TICKS_PER_NANO == 3,
                per_micro == 3000 * self.frames,
        ;
        assert(sim / per_micro >= 0) by (nonlinear_arith)
            requires
                sim >= 0,
                per_micro > 0,
        ;
    }

    /// A thousand times the frames per second, `frames / sim_time`, rounded
    /// down.
    pub open spec fn spec_fps_milli(self) -> int {
        (1000 * TICKS_PER_SECOND * self.frames) / (self.sim_ticks as int)
    }

    /// The mean simulation time of a frame in microseconds,
    /// `1000 / fps` milliseconds, rounded down.
    pub open spec fn spec_frame_micros(self) -> int {
        (self.sim_ticks as int) / (1000 * TICKS_PER_NANO * self.frames)
    }

    /// The mean update time of a frame in microseconds,
    /// `1000 * cpu_time / frames` milliseconds, rounded towards zero.
    pub open spec fn spec_cpu_micros(self) -> int {
        quotient_towards_zero(self.cpu_nanos as int, 1000 * self.frames)
    }

    /// A thousand times the frames per second, rounded down; `None` where the
    /// report covers no time or the value does not fit.
    pub fn fps_milli(&self) -> (fps: Option<u64>)
        ensures
            fps == if self.sim_ticks > 0 && self.spec_fps_milli() <= u64::MAX {
                Some(self.spec_fps_milli() as u64)
            } else {
                None::<u64>
            },
    {
        if self.sim_ticks == 0 {
            return None;
        }
        let scaled: u128 = 3_000_000_000_000 * (self.frames as u128);
        let fps: u128 = scaled / self.sim_ticks;
        if fps > (u64::MAX as u128) {
            None
        } else {
            Some(fps as u64)
        }
    }

    /// The mean simulation time of a frame in microseconds, rounded down;
    /// `None` where the report covers no frame.
    pub fn frame_micros(&self) -> (micros: Option<u128>)
        ensures
            micros == if self.frames > 0 {
                Some(self.spec_frame_micros() as u128)
            } else {
                None::<u128>
            },
    {
        if self.frames == 0 {
            return None;
        }
        let per_micro: u128 = 3000 * (self.frames as u128);
        Some(self.sim_ticks / per_micro)
    }

    /// The mean update time of a frame in microseconds, rounded towards zero;
    /// `None` where the report covers no frame.
    pub fn cpu_micros(&self) -> (micros: Option<i128>)
        ensures
            micros == if self.frames > 0 {
                Some(self.spec_cpu_micros() as i128)
            } else {
                None::<i128>
            },
    {
        if self.frames == 0 {
            return None;
        }
        let divisor: i128 = 1000 * (self.frames as i128);
        Some(self.cpu_nanos / divisor)
    }
}

} // verus!
