use vstd::prelude::*;

verus! {

/// The stage that a progress notification reports, without its payload.
#[derive(Clone, Copy, Debug, PartialEq, Eq, Structural)]
pub enum ProgressKind {
    Downloading,
    Downloaded,
    Encoding,
    Encoded,
    Finished,
    Error,
}

/// Progress of plotting one sector, published to the registered handlers and to
/// the caller's sink. Durations are in nanoseconds.
pub enum SectorPlottingProgress<P> {
    Downloading,
    Downloaded(u64),
    Encoding,
    Encoded(u64),
    Finished { plotted_sector: P, time: u64, sector: Vec<u8>, sector_metadata: Vec<u8> },
    Error { error: String },
}

/// The successful stages in the order in which one job reports them.
pub open spec fn stage_at(i: int) -> ProgressKind {
    if i == 0 {
        ProgressKind::Downloading
    } else if i == 1 {
        ProgressKind::Downloaded
    } else if i == 2 {
        ProgressKind::Encoding
    } else if i == 3 {
        ProgressKind::Encoded
    } else {
        ProgressKind::Finished
    }
}

/// Position of a successful stage in the order above.
pub open spec fn rank(k: ProgressKind) -> int {
    match k {
        ProgressKind::Downloading => 0,
        ProgressKind::Downloaded => 1,
        ProgressKind::Encoding => 2,
        ProgressKind::Encoded => 3,
        ProgressKind::Finished => 4,
        ProgressKind::Error => 5,
    }
}

pub open spec fn is_terminal(k: ProgressKind) -> bool {
    k == ProgressKind::Finished || k == ProgressKind::Error
}

/// `s` is a prefix of the successful stages.
pub open spec fn is_stage_prefix(s: Seq<ProgressKind>) -> bool {
    s.len() <= 5 && forall|i: int| 0 <= i < s.len() ==> s[i] == stage_at(i)
}

/// `s` is a prefix of the successful stages, possibly followed by one `Error`
/// in place of the next stage.
pub open spec fn is_ordered(s: Seq<ProgressKind>) -> bool {
    is_stage_prefix(s) || (s.len() >= 1 && s.last() == ProgressKind::Error
        && is_stage_prefix(s.drop_last()) && s.len() <= 5)
}

/// How many notifications of `s` end a job.
pub open spec fn terminal_count(s: Seq<ProgressKind>) -> nat
    decreases s.len(),
{
    if s.len() == 0 {
        0
    } else {
        terminal_count(s.drop_last()) + if is_terminal(s.last()) { 1nat } else { 0nat }
    }
}

proof fn lemma_stage_prefix_terminals(s: Seq<ProgressKind>)
    requires
        is_stage_prefix(s),
    ensures
        terminal_count(s) == if s.len() == 5 { 1nat } else { 0nat },
    decreases s.len(),
{
    if s.len() > 0 {
        let t = s.drop_last();
        assert(is_stage_prefix(t)) by {
            assert forall|i: int| 0 <= i < t.len() implies t[i] == stage_at(i) by {
                assert(t[i] == s[i]);
            }
        }
        lemma_stage_prefix_terminals(t);
        assert(s.last() == stage_at(s.len() - 1));
    }
}

/// An ordered run of notifications holds at most one that ends the job, and when
/// its last notification ends the job, that one is the only one.
pub proof fn lemma_ordered_terminal(s: Seq<ProgressKind>)
    requires
        is_ordered(s),
    ensures
        terminal_count(s) <= 1,
        s.len() > 0 && is_terminal(s.last()) ==> terminal_count(s) == 1,
{
    if is_stage_prefix(s) {
        lemma_stage_prefix_terminals(s);
        if s.len() > 0 && is_terminal(s.last()) {
            assert(s.last() == stage_at(s.len() - 1));
        }
    } else {
        lemma_stage_prefix_terminals(s.drop_last());
        if s.drop_last().len() == 5 {
            assert(false);
        }
    }
}

impl<P> SectorPlottingProgress<P> {
    pub open spec fn kind_spec(&self) -> ProgressKind {
        match self {
            SectorPlottingProgress::Downloading => ProgressKind::Downloading,
            SectorPlottingProgress::Downloaded(_) => ProgressKind::Downloaded,
            SectorPlottingProgress::Encoding => ProgressKind::Encoding,
            SectorPlottingProgress::Encoded(_) => ProgressKind::Encoded,
            SectorPlottingProgress::Finished { .. } => ProgressKind::Finished,
            SectorPlottingProgress::Error { .. } => ProgressKind::Error,
        }
    }

    /// The stage that this notification reports.
    pub fn kind(&self) -> (r: ProgressKind)
        ensures
            r == self.kind_spec(),
    {
        match self {
            SectorPlottingProgress::Downloading => ProgressKind::Downloading,
            SectorPlottingProgress::Downloaded(_) => ProgressKind::Downloaded,
            SectorPlottingProgress::Encoding => ProgressKind::Encoding,
            SectorPlottingProgress::Encoded(_) => ProgressKind::Encoded,
            SectorPlottingProgress::Finished { .. } => ProgressKind::Finished,
            SectorPlottingProgress::Error { .. } => ProgressKind::Error,
        }
    }
}

} // verus!
