//! Where a time source reports what it does: the samples it produced, the
//! errors it met, and the phases it went through.
//!
//! What a sink was told is a ghost log of three sequences. The composite sends
//! every report on to two sinks, and the fake keeps the reports for
//! inspection.

use vstd::prelude::*;

verus! {

/// One poll of a server: how long it took, and where its center lay.
#[derive(Debug, Clone, Copy, PartialEq, Eq, Structural)]
pub struct Poll {
    /// The round trip time of the poll, in nanoseconds.
    pub round_trip_time: i64,
    /// The offset of the center of the poll from the center of the bound
    /// before it, in nanoseconds, where that is known.
    pub center_offset: Option<i64>,
}

impl Poll {
    /// A poll of which only the round trip time is known.
    pub fn with_round_trip_time(round_trip_time: i64) -> (poll: Poll)
        ensures
            poll == (Poll { round_trip_time, center_offset: None }),
    {
        Poll { round_trip_time, center_offset: None }
    }
}

/// A time sample, produced from one or more polls.
#[derive(Debug, Clone, PartialEq)]
pub struct HttpsSample {
    /// The utc time, in nanoseconds.
    pub utc: i64,
    /// The monotonic time at which the utc time was valid, in nanoseconds.
    pub monotonic: i64,
    /// The standard deviation of the utc error, in nanoseconds.
    pub standard_deviation: i64,
    /// The size of the final bound on utc, in nanoseconds.
    pub final_bound_size: i64,
    /// The polls that the sample was made from.
    pub polls: Vec<Poll>,
}

/// What a time sample holds.
pub struct HttpsSampleView {
    /// The utc time, in nanoseconds.
    pub utc: i64,
    /// The monotonic time at which the utc time was valid, in nanoseconds.
    pub monotonic: i64,
    /// The standard deviation of the utc error, in nanoseconds.
    pub standard_deviation: i64,
    /// The size of the final bound on utc, in nanoseconds.
    pub final_bound_size: i64,
    /// The polls that the sample was made from.
    pub polls: Seq<Poll>,
}

impl View for HttpsSample {
    type V = HttpsSampleView;

    open spec fn view(&self) -> HttpsSampleView {
        HttpsSampleView {
            utc: self.utc,
            monotonic: self.monotonic,
            standard_deviation: self.standard_deviation,
            final_bound_size: self.final_bound_size,
            polls: self.polls@,
        }
    }
}

impl HttpsSample {
    /// A copy of this sample.
    pub fn duplicate(&self) -> (copy: HttpsSample)
        ensures
            copy@ == self@,
    {
        let mut polls: Vec<Poll> = Vec::new();
        let mut i: usize = 0;
        while i < self.polls.len()
            invariant
                i <= self.polls.len(),
                polls@ == self.polls@.subrange(0, i as int),
            decreases self.polls.len() - i,
        {
            polls.push(self.polls[i]);
            i += 1;
            assert(polls@ =~= self.polls@.subrange(0, i as int));
        }
        assert(self.polls@.subrange(0, i as int) =~= self.polls@);
        HttpsSample {
            utc: self.utc,
            monotonic: self.monotonic,
            standard_deviation: self.standard_deviation,
            final_bound_size: self.final_bound_size,
            polls,
        }
    }
}

/// The kinds of error that a poll of a server can end with.
#[derive(Debug, Clone, Copy, PartialEq, Eq, Structural)]
#[non_exhaustive]
pub enum HttpsDateErrorType {
    /// The host name is not valid.
    InvalidHostname,
    /// The network failed.
    NetworkError,
}

/// The phases of a time source.
#[derive(Debug, Clone, Copy, PartialEq, Eq, Structural)]
pub enum Phase {
    /// The source has produced no sample yet.
    Initial,
    /// The source polls often, to converge on the time.
    Converge,
    /// The source polls seldom, to maintain the time.
    Maintain,
}

/// What a sink was told, in the order in which it was told.
pub struct DiagnosticsLog {
    /// The samples that were produced.
    pub successes: Seq<HttpsSampleView>,
    /// The errors that were met.
    pub failures: Seq<HttpsDateErrorType>,
    /// The phases that were entered.
    pub phases: Seq<Phase>,
}

/// A sink for the reports of a time source.
pub trait Diagnostics {
    /// What this sink was told.
    spec fn log(&self) -> DiagnosticsLog;

    /// Records a successful poll attempt.
    fn success(&mut self, sample: &HttpsSample)
        ensures
            final(self).log() == (DiagnosticsLog {
                successes: old(self).log().successes.push(sample@),
                ..old(self).log()
            }),
    ;

    /// Records a failed poll attempt.
    fn failure(&mut self, error: &HttpsDateErrorType)
        ensures
            final(self).log() == (DiagnosticsLog {
                failures: old(self).log().failures.push(*error),
                ..old(self).log()
            }),
    ;

    /// Records a change of phase.
    fn phase_update(&mut self, phase: &Phase)
        ensures
            final(self).log() == (DiagnosticsLog {
                phases: old(self).log().phases.push(*phase),
                ..old(self).log()
            }),
    ;
}

/// A trivial `Diagnostics` implementation that simply sends every event it
/// receives to two other `Diagnostics` implementations.
pub struct CompositeDiagnostics<L: Diagnostics, R: Diagnostics> {
    /// The first `Diagnostics` implementation to receive events.
    left: L,
    /// The second `Diagnostics` implementation to receive events.
    right: R,
}

impl<L: Diagnostics, R: Diagnostics> CompositeDiagnostics<L, R> {
    /// The first sink.
    pub closed spec fn spec_left(&self) -> L {
        self.left
    }

    /// The second sink.
    pub closed spec fn spec_right(&self) -> R {
        self.right
    }

    /// Constructs a new `CompositeDiagnostics` instance that forwards all
    /// events to the supplied diagnostics implementations.
    pub fn new(left: L, right: R) -> (composite: Self)
        ensures
            composite.spec_left() == left,
            composite.spec_right() == right,
    {
        Self { left, right }
    }

    /// The first sink.
    pub fn left(&self) -> (left: &L)
        ensures
            *left == self.spec_left(),
    {
        &self.left
    }

    /// The second sink.
    pub fn right(&self) -> (right: &R)
        ensures
            *right == self.spec_right(),
    {
        &self.right
    }
}

impl<L: Diagnostics, R: Diagnostics> Diagnostics for CompositeDiagnostics<L, R> {
    /// What the composite was told is what its first sink was told.
    closed spec fn log(&self) -> DiagnosticsLog {
        self.left.log()
    }

    fn success(&mut self, sample: &HttpsSample)
        ensures
            final(self).spec_left().log() == (DiagnosticsLog {
                successes: old(self).spec_left().log().successes.push(sample@),
                ..old(self).spec_left().log()
            }),
            final(self).spec_right().log() == (DiagnosticsLog {
                successes: old(self).spec_right().log().successes.push(sample@),
                ..old(self).spec_right().log()
            }),
    {
        self.left.success(sample);
        self.right.success(sample);
    }

    fn failure(&mut self, error: &HttpsDateErrorType)
        ensures
            final(self).spec_left().log() == (DiagnosticsLog {
                failures: old(self).spec_left().log().failures.push(*error),
                ..old(self).spec_left().log()
            }),
            final(self).spec_right().log() == (DiagnosticsLog {
                failures: old(self).spec_right().log().failures.push(*error),
                ..old(self).spec_right().log()
            }),
    {
        self.left.failure(error);
        self.right.failure(error);
    }

    fn phase_update(&mut self, phase: &Phase)
        ensures
            final(self).spec_left().log() == (DiagnosticsLog {
                phases: old(self).spec_left().log().phases.push(*phase),
                ..old(self).spec_left().log()
            }),
            final(self).spec_right().log() == (DiagnosticsLog {
                phases: old(self).spec_right().log().phases.push(*phase),
                ..old(self).spec_right().log()
            }),
    {
        self.left.phase_update(phase);
        self.right.phase_update(phase);
    }
}

/// A fake `Diagnostics` implementation useful for verifying unittests.
pub struct FakeDiagnostics {
    /// An ordered list of the successes received since the last reset.
    successes: Vec<HttpsSample>,
    /// An ordered list of the failures received since the last reset.
    failures: Vec<HttpsDateErrorType>,
    /// An ordered list of phase updates received since the last reset.
    phases: Vec<Phase>,
}

impl FakeDiagnostics {
    /// The samples that the lists hold.
    pub closed spec fn sample_views(samples: Seq<HttpsSample>) -> Seq<HttpsSampleView> {
        Seq::new(samples.len(), |i: int| samples[i]@)
    }

    /// Constructs a new `FakeDiagnostics`, which was told nothing.
    pub fn new() -> (fake: FakeDiagnostics)
        ensures
            fake.log().successes == Seq::<HttpsSampleView>::empty(),
            fake.log().failures == Seq::<HttpsDateErrorType>::empty(),
            fake.log().phases == Seq::<Phase>::empty(),
    {
        let fake = FakeDiagnostics {
            successes: Vec::new(),
            failures: Vec::new(),
            phases: Vec::new(),
        };
        assert(fake.log().successes =~= Seq::<HttpsSampleView>::empty());
        fake
    }

    /// Returns a copy of the successes received since the last reset.
    pub fn successes(&self) -> (successes: Vec<HttpsSample>)
        ensures
            successes@.len() == self.log().successes.len(),
            forall|i: int|
                0 <= i < successes@.len() ==> (#[trigger] successes@[i])@
                    == self.log().successes[i],
    {
        let mut copies: Vec<HttpsSample> = Vec::new();
        let mut i: usize = 0;
        while i < self.successes.len()
            invariant
                i <= self.successes.len(),
                copies@.len() == i,
                forall|j: int| 0 <= j < i ==> (#[trigger] copies@[j])@ == self.successes@[j]@,
            decreases self.successes.len() - i,
        {
            copies.push(self.successes[i].duplicate());
            i += 1;
        }
        copies
    }

    /// Returns a copy of the failures received since the last reset.
    pub fn failures(&self) -> (failures: Vec<HttpsDateErrorType>)
        ensures
            failures@ == self.log().failures,
    {
        let mut copies: Vec<HttpsDateErrorType> = Vec::new();
        let mut i: usize = 0;
        while i < self.failures.len()
            invariant
                i <= self.failures.len(),
                copies@ == self.failures@.subrange(0, i as int),
            decreases self.failures.len() - i,
        {
            copies.push(self.failures[i]);
            i += 1;
            assert(copies@ =~= self.failures@.subrange(0, i as int));
        }
        assert(self.failures@.subrange(0, i as int) =~= self.failures@);
        copies
    }

    /// Returns a copy of the phase updates received since the last reset.
    pub fn phase_updates(&self) -> (phases: Vec<Phase>)
        ensures
            phases@ == self.log().phases,
    {
        let mut copies: Vec<Phase> = Vec::new();
        let mut i: usize = 0;
        while i < self.phases.len()
            invariant
                i <= self.phases.len(),
                copies@ == self.phases@.subrange(0, i as int),
            decreases self.phases.len() - i,
        {
            copies.push(self.phases[i]);
            i += 1;
            assert(copies@ =~= self.phases@.subrange(0, i as int));
        }
        assert(self.phases@.subrange(0, i as int) =~= self.phases@);
        copies
    }

    /// Clears all recorded interactions.
    pub fn reset(&mut self)
        ensures
            final(self).log().successes == Seq::<HttpsSampleView>::empty(),
            final(self).log().failures == Seq::<HttpsDateErrorType>::empty(),
            final(self).log().phases == Seq::<Phase>::empty(),
    {
        self.successes.clear();
        self.failures.clear();
        self.phases.clear();
        assert(self.log().successes =~= Seq::<HttpsSampleView>::empty());
    }
}

impl Diagnostics for FakeDiagnostics {
    closed spec fn log(&self) -> DiagnosticsLog {
        DiagnosticsLog {
            successes: FakeDiagnostics::sample_views(self.successes@),
            failures: self.failures@,
            phases: self.phases@,
        }
    }

    fn success(&mut self, sample: &HttpsSample) {
        self.successes.push(sample.duplicate());
        assert(self.log().successes =~= old(self).log().successes.push(sample@));
    }

    fn failure(&mut self, error: &HttpsDateErrorType) {
        self.failures.push(*error);
    }

    fn phase_update(&mut self, phase: &Phase) {
        self.phases.push(*phase);
    }
}

} // verus!
