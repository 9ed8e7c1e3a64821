use vstd::prelude::*;
use crate::progress::{is_ordered, is_stage_prefix, is_terminal, lemma_ordered_terminal, rank, terminal_count, ProgressKind};

verus! {

/// Where a job stands: the phase decides the next action.
#[derive(Clone, Copy, Debug, PartialEq, Eq, Structural)]
pub enum Phase {
    /// Waiting for a downloading permit.
    Admission,
    /// Publishing a notification to the handlers and the sink.
    Announce(ProgressKind),
    /// Fetching the sector's pieces.
    Download,
    /// Borrowing a pair of thread pools and a slice of table generators.
    Acquire,
    /// Running the encoder.
    Encode,
    /// Giving back the permit and the thread pools.
    Release,
    /// Nothing more to do.
    Done,
}

/// How an encode ended.
#[derive(Clone, Copy, Debug, PartialEq, Eq, Structural)]
pub enum EncodeOutcome {
    Encoded,
    AbortEarly,
    Failed,
}

/// What the driver of a job observed after carrying out an action.
#[derive(Clone, Copy, Debug, PartialEq, Eq, Structural)]
pub enum Event {
    PermitGranted,
    PermitRefused,
    /// The notification went to the handlers; `sink_ok` tells whether the sink
    /// accepted it too.
    Published { sink_ok: bool },
    DownloadSucceeded,
    DownloadFailed,
    /// A pair of thread pools and a slice of generators are held.
    ResourcesAcquired,
    /// The encoder returned and its generator slice is back in the pool.
    EncodeFinished(EncodeOutcome),
    /// The permit and the thread pools were given back.
    Released,
    /// The engine was torn down.
    Cancelled,
}

/// What the driver of a job is to do next.
#[derive(Clone, Copy, Debug, PartialEq, Eq, Structural)]
pub enum Action {
    AcquirePermit,
    /// Publish a notification to the handlers, and to the sink when `to_sink`.
    Publish { kind: ProgressKind, to_sink: bool },
    /// Pass the global mutex as a checkpoint, then download the sector.
    Download,
    /// Borrow a pair of thread pools, then a generator slice, then yield once.
    AcquireResources,
    /// Run the encoder on the replotting pool of the pair when `replotting`, on
    /// its plotting pool otherwise, then return the generator slice.
    Encode { replotting: bool },
    /// Give back the permit and the thread pools that are held.
    Release,
    Stop,
}

/// The state of one `plot_sector` job.
pub struct PlotJob {
    pub phase: Phase,
    pub replotting: bool,
    /// The caller's sink has accepted every notification so far.
    pub sink_open: bool,
    pub holds_permit: bool,
    pub holds_thread_pools: bool,
    pub holds_generators: bool,
    /// The job ended without a final notification: the encoder observed the
    /// abort flag, or the engine was torn down.
    pub aborted: bool,
    /// Notifications published to the handlers, in order.
    pub emitted: Ghost<Seq<ProgressKind>>,
    /// Notifications accepted by the sink, in order.
    pub delivered: Ghost<Seq<ProgressKind>>,
}

/// The phase that follows publishing `k`.
pub open spec fn after_announce(k: ProgressKind) -> Phase {
    match k {
        ProgressKind::Downloading => Phase::Download,
        ProgressKind::Downloaded => Phase::Acquire,
        ProgressKind::Encoding => Phase::Encode,
        ProgressKind::Encoded => Phase::Announce(ProgressKind::Finished),
        ProgressKind::Finished => Phase::Release,
        ProgressKind::Error => Phase::Release,
    }
}

pub open spec fn action_spec(s: PlotJob) -> Action {
    match s.phase {
        Phase::Admission => Action::AcquirePermit,
        Phase::Announce(k) => Action::Publish { kind: k, to_sink: s.sink_open },
        Phase::Download => Action::Download,
        Phase::Acquire => Action::AcquireResources,
        Phase::Encode => Action::Encode { replotting: s.replotting },
        Phase::Release => Action::Release,
        Phase::Done => Action::Stop,
    }
}

pub open spec fn with_phase(s: PlotJob, p: Phase) -> PlotJob {
    PlotJob { phase: p, ..s }
}

pub open spec fn published(s: PlotJob, k: ProgressKind, sink_ok: bool) -> PlotJob {
    PlotJob {
        phase: after_announce(k),
        sink_open: s.sink_open && sink_ok,
        emitted: Ghost(s.emitted@.push(k)),
        delivered: Ghost(if s.sink_open && sink_ok { s.delivered@.push(k) } else { s.delivered@ }),
        ..s
    }
}

pub open spec fn ended(s: PlotJob, aborted: bool) -> PlotJob {
    PlotJob {
        phase: Phase::Done,
        holds_permit: false,
        holds_thread_pools: false,
        holds_generators: false,
        aborted,
        ..s
    }
}

/// The state after `e`; an event that does not fit the phase changes nothing.
pub open spec fn step_spec(s: PlotJob, e: Event) -> PlotJob {
    if s.phase == Phase::Done {
        s
    } else if e == Event::Cancelled {
        ended(s, true)
    } else {
        match (s.phase, e) {
            (Phase::Admission, Event::PermitGranted) => PlotJob {
                phase: Phase::Announce(ProgressKind::Downloading),
                holds_permit: true,
                ..s
            },
            (Phase::Admission, Event::PermitRefused) => with_phase(s, Phase::Announce(ProgressKind::Error)),
            (Phase::Announce(k), Event::Published { sink_ok }) => published(s, k, sink_ok),
            (Phase::Download, Event::DownloadSucceeded) => with_phase(s, Phase::Announce(ProgressKind::Downloaded)),
            (Phase::Download, Event::DownloadFailed) => with_phase(s, Phase::Announce(ProgressKind::Error)),
            (Phase::Acquire, Event::ResourcesAcquired) => PlotJob {
                phase: Phase::Announce(ProgressKind::Encoding),
                holds_thread_pools: true,
                holds_generators: true,
                ..s
            },
            (Phase::Encode, Event::EncodeFinished(o)) => match o {
                EncodeOutcome::Encoded => PlotJob {
                    phase: Phase::Announce(ProgressKind::Encoded),
                    holds_generators: false,
                    ..s
                },
                EncodeOutcome::AbortEarly => PlotJob {
                    phase: Phase::Release,
                    holds_generators: false,
                    aborted: true,
                    ..s
                },
                EncodeOutcome::Failed => PlotJob {
                    phase: Phase::Announce(ProgressKind::Error),
                    holds_generators: false,
                    ..s
                },
            },
            (Phase::Release, Event::Released) => ended(s, s.aborted),
            _ => s,
        }
    }
}

/// `p` is a prefix of `s`.
pub open spec fn is_prefix(p: Seq<ProgressKind>, s: Seq<ProgressKind>) -> bool {
    p.len() <= s.len() && forall|i: int| 0 <= i < p.len() ==> p[i] == s[i]
}

proof fn lemma_push_stage(em: Seq<ProgressKind>, k: ProgressKind)
    requires
        is_stage_prefix(em),
        k != ProgressKind::Error,
        em.len() == rank(k),
    ensures
        is_stage_prefix(em.push(k)),
        is_ordered(em.push(k)),
        em.push(k).last() == k,
{
    let n = em.push(k);
    assert forall|i: int| 0 <= i < n.len() implies n[i] == crate::progress::stage_at(i) by {
        if i < em.len() {
            assert(n[i] == em[i]);
        }
    }
}

proof fn lemma_push_error(em: Seq<ProgressKind>)
    requires
        is_stage_prefix(em),
        em.len() <= 4,
    ensures
        is_ordered(em.push(ProgressKind::Error)),
        em.push(ProgressKind::Error).last() == ProgressKind::Error,
{
    assert(em.push(ProgressKind::Error).drop_last() == em);
}

proof fn lemma_prefix_push(p: Seq<ProgressKind>, s: Seq<ProgressKind>, k: ProgressKind)
    requires
        is_prefix(p, s),
    ensures
        is_prefix(p, s.push(k)),
{
    assert forall|i: int| 0 <= i < p.len() implies p[i] == s.push(k)[i] by {
        assert(s.push(k)[i] == s[i]);
    }
}

/// Every transition keeps a well-formed job well formed.
pub proof fn lemma_step_wf(s: PlotJob, e: Event)
    requires
        s.wf(),
    ensures
        step_spec(s, e).wf(),
{
    if s.phase != Phase::Done && e != Event::Cancelled {
        match (s.phase, e) {
            (Phase::Announce(k), Event::Published { sink_ok }) => {
                let em = s.emitted@;
                if k == ProgressKind::Error {
                    lemma_push_error(em);
                } else {
                    lemma_push_stage(em, k);
                }
                lemma_prefix_push(s.delivered@, em, k);
                lemma_prefix_push(em, em, k);
                assert(is_prefix(em, em));
            },
            _ => {},
        }
    }
}

/// Of every job in any state, the notifications published to the handlers and
/// those accepted by the sink each follow the stage order, possibly ending in
/// one error in place of the next stage, and the sink's are a prefix of the
/// handlers'.
pub proof fn lemma_events_ordered(j: PlotJob)
    requires
        j.wf(),
    ensures
        is_ordered(j.emitted@),
        is_ordered(j.delivered@),
        is_prefix(j.delivered@, j.emitted@),
{
}

/// A job never publishes both `Finished` and `Error`, nor either twice. A job
/// that has ended without observing the abort flag published exactly one of
/// them, as its last notification, and if its sink stayed open the sink
/// received exactly that one too.
pub proof fn lemma_terminal_event(j: PlotJob)
    requires
        j.wf(),
    ensures
        terminal_count(j.emitted@) <= 1,
        terminal_count(j.delivered@) <= 1,
        j.phase == Phase::Done && !j.aborted ==> terminal_count(j.emitted@) == 1 && is_terminal(
            j.emitted@.last(),
        ),
        j.phase == Phase::Done && !j.aborted && j.sink_open ==> terminal_count(j.delivered@) == 1,
{
    lemma_ordered_terminal(j.emitted@);
    lemma_ordered_terminal(j.delivered@);
}

/// Tearing the engine down ends a job at once, releasing what it holds and
/// publishing nothing, and nothing it observes afterwards makes it publish.
pub proof fn lemma_cancellation(j: PlotJob, later: Event)
    requires
        j.wf(),
    ensures
        step_spec(j, Event::Cancelled).phase == Phase::Done,
        step_spec(j, Event::Cancelled).emitted@ == j.emitted@,
        step_spec(j, Event::Cancelled).delivered@ == j.delivered@,
        !step_spec(j, Event::Cancelled).holds_permit,
        !step_spec(j, Event::Cancelled).holds_thread_pools,
        !step_spec(j, Event::Cancelled).holds_generators,
        step_spec(step_spec(j, Event::Cancelled), later) == step_spec(j, Event::Cancelled),
{
}

/// When the encoder reports that it observed the abort flag, the job gives back
/// its generators and ends without publishing anything more, whatever follows.
pub proof fn lemma_abort_is_silent(j: PlotJob, e: Event, later: Event)
    requires
        j.wf(),
        j.phase == Phase::Encode,
    ensures
        ({
            let a = step_spec(j, Event::EncodeFinished(EncodeOutcome::AbortEarly));
            let b = step_spec(a, e);
            &&& !a.holds_generators
            &&& a.emitted@ == j.emitted@
            &&& b.emitted@ == j.emitted@
            &&& step_spec(b, later).emitted@ == j.emitted@
            &&& e == Event::Released ==> b.phase == Phase::Done && !b.holds_permit
        }),
{
}

/// An encode hands its generator slice back whatever its outcome.
pub proof fn lemma_generators_returned(j: PlotJob, o: EncodeOutcome)
    requires
        j.wf(),
        j.phase == Phase::Encode,
    ensures
        j.holds_generators,
        !step_spec(j, Event::EncodeFinished(o)).holds_generators,
{
}

/// A job gains a permit only when one is granted to it, and holds nothing once
/// it has ended.
pub proof fn lemma_permit_accounting(j: PlotJob, e: Event)
    requires
        j.wf(),
    ensures
        !j.holds_permit && step_spec(j, e).holds_permit ==> e == Event::PermitGranted,
        !j.holds_thread_pools && step_spec(j, e).holds_thread_pools ==> e == Event::ResourcesAcquired,
        !j.holds_generators && step_spec(j, e).holds_generators ==> e == Event::ResourcesAcquired,
        j.phase == Phase::Done ==> !j.holds_permit && !j.holds_thread_pools && !j.holds_generators,
{
}

/// The encoder runs on the replotting pool exactly when the job replots; no
/// transition changes which.
pub proof fn lemma_pool_choice(j: PlotJob, e: Event)
    ensures
        j.phase == Phase::Encode ==> action_spec(j) == (Action::Encode { replotting: j.replotting }),
        step_spec(j, e).replotting == j.replotting,
{
}

/// Jobs holding a downloading permit.
pub open spec fn permits_held(jobs: Seq<PlotJob>) -> nat
    decreases jobs.len(),
{
    if jobs.len() == 0 {
        0
    } else {
        permits_held(jobs.drop_last()) + if jobs.last().holds_permit { 1nat } else { 0nat }
    }
}

/// Jobs in the download stage.
pub open spec fn downloading(jobs: Seq<PlotJob>) -> nat
    decreases jobs.len(),
{
    if jobs.len() == 0 {
        0
    } else {
        downloading(jobs.drop_last()) + if jobs.last().phase == Phase::Download { 1nat } else { 0nat }
    }
}

/// Jobs holding a generator slice.
pub open spec fn generator_slices_held(jobs: Seq<PlotJob>) -> nat
    decreases jobs.len(),
{
    if jobs.len() == 0 {
        0
    } else {
        generator_slices_held(jobs.drop_last()) + if jobs.last().holds_generators { 1nat } else { 0nat }
    }
}

/// Jobs in the encode stage.
pub open spec fn encoding(jobs: Seq<PlotJob>) -> nat
    decreases jobs.len(),
{
    if jobs.len() == 0 {
        0
    } else {
        encoding(jobs.drop_last()) + if jobs.last().phase == Phase::Encode { 1nat } else { 0nat }
    }
}

pub open spec fn all_wf(jobs: Seq<PlotJob>) -> bool {
    forall|i: int| 0 <= i < jobs.len() ==> #[trigger] jobs[i].wf()
}

/// Among any well-formed jobs, no more are downloading than hold a downloading
/// permit, and no more are encoding than hold a generator slice; so the
/// semaphore's capacity bounds the downloads and the number of generator slices
/// (one for each pair of thread pools) bounds the encodes. Once every job has
/// ended, no permit is held.
pub proof fn lemma_backpressure(jobs: Seq<PlotJob>)
    requires
        all_wf(jobs),
    ensures
        downloading(jobs) <= permits_held(jobs),
        encoding(jobs) <= generator_slices_held(jobs),
        (forall|i: int| 0 <= i < jobs.len() ==> #[trigger] jobs[i].phase == Phase::Done) ==> permits_held(jobs) == 0
            && generator_slices_held(jobs) == 0,
    decreases jobs.len(),
{
    if jobs.len() > 0 {
        let rest = jobs.drop_last();
        assert forall|i: int| 0 <= i < rest.len() implies #[trigger] rest[i].wf() by {
            assert(rest[i] == jobs[i]);
        }
        lemma_backpressure(rest);
        assert(jobs.last() == jobs[jobs.len() - 1]);
        assert(jobs[jobs.len() - 1].wf());
        if forall|i: int| 0 <= i < jobs.len() ==> #[trigger] jobs[i].phase == Phase::Done {
            assert forall|i: int| 0 <= i < rest.len() implies #[trigger] rest[i].phase == Phase::Done by {
                assert(rest[i] == jobs[i]);
            }
        }
    }
}

/// Exec form of `after_announce`.
fn next_phase(k: ProgressKind) -> (r: Phase)
    ensures
        r == after_announce(k),
{
    match k {
        ProgressKind::Downloading => Phase::Download,
        ProgressKind::Downloaded => Phase::Acquire,
        ProgressKind::Encoding => Phase::Encode,
        ProgressKind::Encoded => Phase::Announce(ProgressKind::Finished),
        ProgressKind::Finished => Phase::Release,
        ProgressKind::Error => Phase::Release,
    }
}

impl PlotJob {
    pub open spec fn wf(&self) -> bool {
        let em = self.emitted@;
        &&& is_ordered(em)
        &&& is_ordered(self.delivered@)
        &&& is_prefix(self.delivered@, em)
        &&& self.sink_open ==> self.delivered@ == em
        &&& self.holds_thread_pools ==> self.holds_permit
        &&& self.holds_generators ==> self.holds_thread_pools
        &&& match self.phase {
            Phase::Admission => em.len() == 0 && !self.holds_permit && !self.aborted,
            Phase::Announce(k) => is_stage_prefix(em) && !self.aborted && if k == ProgressKind::Error {
                em.len() <= 4 && !self.holds_generators
            } else {
                &&& em.len() == rank(k)
                &&& self.holds_permit
                &&& self.holds_generators <==> k == ProgressKind::Encoding
                &&& self.holds_thread_pools <==> rank(k) >= 2
            },
            Phase::Download => is_stage_prefix(em) && em.len() == 1 && self.holds_permit
                && !self.holds_thread_pools && !self.aborted,
            Phase::Acquire => is_stage_prefix(em) && em.len() == 2 && self.holds_permit
                && !self.holds_thread_pools && !self.aborted,
            Phase::Encode => is_stage_prefix(em) && em.len() == 3 && self.holds_generators
                && !self.aborted,
            Phase::Release => !self.holds_generators && if self.aborted {
                is_stage_prefix(em) && em.len() == 3
            } else {
                em.len() > 0 && is_terminal(em.last())
            },
            Phase::Done => !self.holds_permit && !self.holds_thread_pools && !self.holds_generators
                && (!self.aborted ==> em.len() > 0 && is_terminal(em.last())),
        }
    }

    /// A job for one sector, before admission.
    pub fn new(replotting: bool) -> (r: Self)
        ensures
            r.wf(),
            r.phase == Phase::Admission,
            r.replotting == replotting,
            r.sink_open,
            !r.holds_permit,
            r.emitted@ == Seq::<ProgressKind>::empty(),
    {
        let r = PlotJob {
            phase: Phase::Admission,
            replotting,
            sink_open: true,
            holds_permit: false,
            holds_thread_pools: false,
            holds_generators: false,
            aborted: false,
            emitted: Ghost(Seq::empty()),
            delivered: Ghost(Seq::empty()),
        };
        assert(is_stage_prefix(r.emitted@));
        r
    }

    /// What the driver is to do next.
    pub fn next_action(&self) -> (r: Action)
        ensures
            r == action_spec(*self),
    {
        match self.phase {
            Phase::Admission => Action::AcquirePermit,
            Phase::Announce(k) => Action::Publish { kind: k, to_sink: self.sink_open },
            Phase::Download => Action::Download,
            Phase::Acquire => Action::AcquireResources,
            Phase::Encode => Action::Encode { replotting: self.replotting },
            Phase::Release => Action::Release,
            Phase::Done => Action::Stop,
        }
    }

    /// The job has finished, one way or another.
    pub fn is_done(&self) -> (r: bool)
        ensures
            r == (self.phase == Phase::Done),
    {
        match self.phase {
            Phase::Done => true,
            _ => false,
        }
    }
    /// Applies what the driver observed.
    pub fn step(&mut self, e: Event)
        requires
            old(self).wf(),
        ensures
            *final(self) == step_spec(*old(self), e),
            final(self).wf(),
    {
        proof {
            lemma_step_wf(*self, e);
        }
        if self.is_done() {
            return;
        }
        if let Event::Cancelled = e {
            self.phase = Phase::Done;
            self.holds_permit = false;
            self.holds_thread_pools = false;
            self.holds_generators = false;
            self.aborted = true;
            return;
        }
        match (self.phase, e) {
            (Phase::Admission, Event::PermitGranted) => {
                self.phase = Phase::Announce(ProgressKind::Downloading);
                self.holds_permit = true;
            },
            (Phase::Admission, Event::PermitRefused) => {
                self.phase = Phase::Announce(ProgressKind::Error);
            },
            (Phase::Announce(k), Event::Published { sink_ok }) => {
                let open = self.sink_open && sink_ok;
                self.phase = next_phase(k);
                self.emitted = Ghost(self.emitted@.push(k));
                if open {
                    self.delivered = Ghost(self.delivered@.push(k));
                }
                self.sink_open = open;
            },
            (Phase::Download, Event::DownloadSucceeded) => {
                self.phase = Phase::Announce(ProgressKind::Downloaded);
            },
            (Phase::Download, Event::DownloadFailed) => {
                self.phase = Phase::Announce(ProgressKind::Error);
            },
            (Phase::Acquire, Event::ResourcesAcquired) => {
                self.phase = Phase::Announce(ProgressKind::Encoding);
                self.holds_thread_pools = true;
                self.holds_generators = true;
            },
            (Phase::Encode, Event::EncodeFinished(o)) => {
                self.holds_generators = false;
                match o {
                    EncodeOutcome::Encoded => {
                        self.phase = Phase::Announce(ProgressKind::Encoded);
                    },
                    EncodeOutcome::AbortEarly => {
                        self.phase = Phase::Release;
                        self.aborted = true;
                    },
                    EncodeOutcome::Failed => {
                        self.phase = Phase::Announce(ProgressKind::Error);
                    },
                }
            },
            (Phase::Release, Event::Released) => {
                self.phase = Phase::Done;
                self.holds_permit = false;
                self.holds_thread_pools = false;
                self.holds_generators = false;
            },
            _ => {},
        }
    }
}

} // verus!
