use sector_plotter::errors::{error_message, failure, FailedStage};
use sector_plotter::generators::TableGeneratorPool;
use sector_plotter::job::{Action, EncodeOutcome, Event, Phase, PlotJob};
use sector_plotter::progress::{ProgressKind, SectorPlottingProgress};

fn publish(kind: ProgressKind, to_sink: bool) -> Action {
    Action::Publish { kind, to_sink }
}

/// Feeds `events` to `job`, recording the action asked for before each one and
/// the one asked for at the end.
fn drive(job: &mut PlotJob, events: &[Event]) -> Vec<Action> {
    let mut actions = Vec::new();
    for e in events {
        actions.push(job.next_action());
        job.step(*e);
    }
    actions.push(job.next_action());
    actions
}

const SENT: Event = Event::Published { sink_ok: true };
const NOT_SENT: Event = Event::Published { sink_ok: false };

#[test]
fn happy_path_publishes_every_stage_in_order() {
    let mut job = PlotJob::new(false);
    let actions = drive(
        &mut job,
        &[
            Event::PermitGranted,
            SENT,
            Event::DownloadSucceeded,
            SENT,
            Event::ResourcesAcquired,
            SENT,
            Event::EncodeFinished(EncodeOutcome::Encoded),
            SENT,
            SENT,
            Event::Released,
        ],
    );
    assert_eq!(
        actions,
        vec![
            Action::AcquirePermit,
            publish(ProgressKind::Downloading, true),
            Action::Download,
            publish(ProgressKind::Downloaded, true),
            Action::AcquireResources,
            publish(ProgressKind::Encoding, true),
            Action::Encode { replotting: false },
            publish(ProgressKind::Encoded, true),
            publish(ProgressKind::Finished, true),
            Action::Release,
            Action::Stop,
        ]
    );
    assert!(job.is_done());
    assert!(!job.holds_permit && !job.holds_thread_pools && !job.holds_generators);
    assert!(!job.aborted);

    let finished: SectorPlottingProgress<u32> = SectorPlottingProgress::Finished {
        plotted_sector: 0,
        time: 5,
        sector: vec![0x01, 0x02],
        sector_metadata: vec![0xAA],
    };
    assert_eq!(finished.kind(), ProgressKind::Finished);
    match finished {
        SectorPlottingProgress::Finished { sector, sector_metadata, .. } => {
            assert_eq!(sector, vec![0x01, 0x02]);
            assert_eq!(sector_metadata, vec![0xAA]);
        }
        _ => panic!("not finished"),
    }
}

#[test]
fn download_failure_publishes_error_and_releases_permit() {
    let mut job = PlotJob::new(false);
    let actions = drive(
        &mut job,
        &[Event::PermitGranted, SENT, Event::DownloadFailed, SENT, Event::Released],
    );
    assert_eq!(
        actions,
        vec![
            Action::AcquirePermit,
            publish(ProgressKind::Downloading, true),
            Action::Download,
            publish(ProgressKind::Error, true),
            Action::Release,
            Action::Stop,
        ]
    );
    assert!(!job.holds_permit);
    let p: SectorPlottingProgress<u32> = failure(FailedStage::Download, "net");
    assert_eq!(p.kind(), ProgressKind::Error);
    match p {
        SectorPlottingProgress::Error { error } => {
            assert!(error.contains("net"));
            assert_eq!(error, "Failed to download sector: net");
        }
        _ => panic!("not an error"),
    }
}

#[test]
fn abort_during_encode_ends_silently_and_returns_generators() {
    let mut pool = TableGeneratorPool::new(1, 1, || 0u8);
    let mut job = PlotJob::new(false);
    drive(
        &mut job,
        &[Event::PermitGranted, SENT, Event::DownloadSucceeded, SENT],
    );
    let slice = pool.pop().expect("one slice at rest");
    assert_eq!(pool.available_slices(), 0);
    let actions = drive(
        &mut job,
        &[Event::ResourcesAcquired, SENT, Event::EncodeFinished(EncodeOutcome::AbortEarly)],
    );
    assert_eq!(
        actions,
        vec![
            Action::AcquireResources,
            publish(ProgressKind::Encoding, true),
            Action::Encode { replotting: false },
            Action::Release,
        ]
    );
    assert!(!job.holds_generators);
    pool.push(slice);
    assert_eq!(pool.available_slices(), 1);
    job.step(Event::Released);
    assert_eq!(job.next_action(), Action::Stop);
    assert!(job.aborted);
}

#[test]
fn sink_dropped_after_downloaded_still_reaches_the_end() {
    let mut job = PlotJob::new(false);
    let actions = drive(
        &mut job,
        &[
            Event::PermitGranted,
            SENT,
            Event::DownloadSucceeded,
            SENT,
            Event::ResourcesAcquired,
            NOT_SENT,
            Event::EncodeFinished(EncodeOutcome::Encoded),
            NOT_SENT,
            NOT_SENT,
            Event::Released,
        ],
    );
    assert_eq!(
        actions[5..],
        [
            publish(ProgressKind::Encoding, true),
            Action::Encode { replotting: false },
            publish(ProgressKind::Encoded, false),
            publish(ProgressKind::Finished, false),
            Action::Release,
            Action::Stop,
        ]
    );
    assert!(!job.sink_open);
    assert!(job.is_done() && !job.aborted);
}

#[test]
fn concurrent_admission_respects_the_semaphore() {
    let capacity: usize = 2;
    let mut free = capacity;
    let mut jobs: Vec<PlotJob> = (0..5).map(|_| PlotJob::new(false)).collect();
    let mut rounds = 0;
    while !jobs.iter().all(|j| j.is_done()) {
        rounds += 1;
        assert!(rounds < 1000);
        for job in jobs.iter_mut() {
            let event = match job.next_action() {
                Action::AcquirePermit => {
                    if free == 0 {
                        continue;
                    }
                    free -= 1;
                    Event::PermitGranted
                }
                Action::Publish { .. } => SENT,
                Action::Download => Event::DownloadSucceeded,
                Action::AcquireResources => Event::ResourcesAcquired,
                Action::Encode { .. } => Event::EncodeFinished(EncodeOutcome::Encoded),
                Action::Release => {
                    free += 1;
                    Event::Released
                }
                Action::Stop => continue,
            };
            job.step(event);
        }
        let downloading = jobs.iter().filter(|j| j.phase == Phase::Download).count();
        assert!(downloading <= capacity);
        let holding = jobs.iter().filter(|j| j.holds_permit).count();
        assert!(holding <= capacity);
        assert_eq!(holding + free, capacity);
    }
    assert_eq!(free, capacity);
}

#[test]
fn replotting_encodes_on_the_replotting_pool() {
    let mut job = PlotJob::new(true);
    let actions = drive(
        &mut job,
        &[Event::PermitGranted, SENT, Event::DownloadSucceeded, SENT, Event::ResourcesAcquired, SENT],
    );
    assert_eq!(actions.last(), Some(&Action::Encode { replotting: true }));
    let mut fresh = PlotJob::new(false);
    let actions = drive(
        &mut fresh,
        &[Event::PermitGranted, SENT, Event::DownloadSucceeded, SENT, Event::ResourcesAcquired, SENT],
    );
    assert_eq!(actions.last(), Some(&Action::Encode { replotting: false }));
}

#[test]
fn refused_permit_publishes_one_error() {
    let mut job = PlotJob::new(false);
    let actions = drive(&mut job, &[Event::PermitRefused, SENT, Event::Released]);
    assert_eq!(
        actions,
        vec![
            Action::AcquirePermit,
            publish(ProgressKind::Error, true),
            Action::Release,
            Action::Stop,
        ]
    );
    assert!(!job.holds_permit);
    assert_eq!(
        error_message(FailedStage::Admission, "closed"),
        "Failed to acquire downloading permit: closed"
    );
}

#[test]
fn encode_failure_publishes_error() {
    let mut job = PlotJob::new(false);
    let actions = drive(
        &mut job,
        &[
            Event::PermitGranted,
            SENT,
            Event::DownloadSucceeded,
            SENT,
            Event::ResourcesAcquired,
            SENT,
            Event::EncodeFinished(EncodeOutcome::Failed),
        ],
    );
    assert_eq!(actions.last(), Some(&publish(ProgressKind::Error, true)));
    assert!(!job.holds_generators && job.holds_thread_pools && job.holds_permit);
    assert_eq!(error_message(FailedStage::Encode, "bad"), "Failed to encode sector: bad");
    assert_eq!(
        error_message(FailedStage::Dispatch, "closed"),
        "Failed to send plotting task: closed"
    );
}

#[test]
fn cancellation_ends_a_job_and_releases_everything() {
    let mut job = PlotJob::new(false);
    drive(
        &mut job,
        &[Event::PermitGranted, SENT, Event::DownloadSucceeded, SENT, Event::ResourcesAcquired],
    );
    assert!(job.holds_generators);
    job.step(Event::Cancelled);
    assert!(job.is_done() && job.aborted);
    assert!(!job.holds_permit && !job.holds_thread_pools && !job.holds_generators);
    job.step(SENT);
    assert_eq!(job.next_action(), Action::Stop);
}

#[test]
fn events_that_do_not_fit_the_phase_change_nothing() {
    let mut job = PlotJob::new(false);
    job.step(Event::DownloadSucceeded);
    assert_eq!(job.phase, Phase::Admission);
    job.step(SENT);
    assert_eq!(job.next_action(), Action::AcquirePermit);
}

#[test]
fn generator_pool_lends_each_slice_once() {
    let mut pool = TableGeneratorPool::new(2, 3, || 7u8);
    assert_eq!(pool.thread_pool_pairs(), 2);
    assert_eq!(pool.record_encoding_concurrency(), 3);
    assert_eq!(pool.available_slices(), 2);
    let a = pool.pop().expect("first");
    let b = pool.pop().expect("second");
    assert_eq!(a, vec![7, 7, 7]);
    assert_eq!(b.len(), 3);
    assert!(pool.pop().is_none());
    assert_eq!(pool.available_slices(), 0);
    pool.push(a);
    pool.push(b);
    assert_eq!(pool.available_slices(), 2);
}

#[test]
fn progress_kinds_match_their_variants() {
    let cases: Vec<(SectorPlottingProgress<()>, ProgressKind)> = vec![
        (SectorPlottingProgress::Downloading, ProgressKind::Downloading),
        (SectorPlottingProgress::Downloaded(1), ProgressKind::Downloaded),
        (SectorPlottingProgress::Encoding, ProgressKind::Encoding),
        (SectorPlottingProgress::Encoded(2), ProgressKind::Encoded),
        (SectorPlottingProgress::Error { error: String::from("x") }, ProgressKind::Error),
    ];
    for (p, k) in cases {
        assert_eq!(p.kind(), k);
    }
}
