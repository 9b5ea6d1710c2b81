use bbdd::transfer::{
    range_header, TransferAction, TransferError, TransferEvent, TransferFault, TransferPhase,
    TransferUnit, PROGRESS_BATCH,
};

fn resource(n: usize) -> Vec<u8> {
    (0..n).map(|i| (i % 251) as u8).collect()
}

#[test]
fn resume_scenario_million_bytes() {
    let res = resource(1_000_000);
    let mut file: Vec<u8> = res[..400_000].to_vec();
    let (mut unit, action) = TransferUnit::begin(Some(400_000));
    assert_eq!(action, TransferAction::Probe);
    let action = unit.step(TransferEvent::ProbeAnswered { status: 200, length: Some(1_000_000) });
    assert_eq!(action, TransferAction::FetchFrom(400_000));
    assert_eq!(range_header(Some(400_000), None).unwrap(), "bytes=400000-");
    let action = unit.step(TransferEvent::BodyAnswered { status: 206, length: Some(600_000) });
    assert_eq!(action, TransferAction::Receive);
    assert_eq!(unit.start, 400_000);
    assert_eq!(unit.total, 1_000_000);
    let mut offset = 400_000usize;
    let mut shown = unit.start;
    let mut appended = 0u64;
    while offset < res.len() {
        let end = (offset + 65_536).min(res.len());
        let chunk = &res[offset..end];
        match unit.step(TransferEvent::Chunk(chunk.len() as u64)) {
            TransferAction::Write(advance) => {
                file.extend_from_slice(chunk);
                appended += chunk.len() as u64;
                shown += advance;
            }
            other => panic!("unexpected action {:?}", other),
        }
        offset = end;
    }
    match unit.step(TransferEvent::BodyEnded) {
        TransferAction::Finish(advance) => shown += advance,
        other => panic!("unexpected action {:?}", other),
    }
    assert_eq!(unit.phase, TransferPhase::Complete);
    assert_eq!(appended, 600_000);
    assert_eq!(shown, 1_000_000);
    assert_eq!(file.len(), 1_000_000);
    assert_eq!(file, res);
}

#[test]
fn resumed_file_matches_fresh_download() {
    let res = resource(3_000);
    let mut resumed: Vec<u8> = res[..1_234].to_vec();
    let (mut u, _) = TransferUnit::begin(Some(1_234));
    assert_eq!(
        u.step(TransferEvent::ProbeAnswered { status: 200, length: Some(3_000) }),
        TransferAction::FetchFrom(1_234)
    );
    u.step(TransferEvent::BodyAnswered { status: 206, length: None });
    for chunk in res[1_234..].chunks(700) {
        assert!(matches!(u.step(TransferEvent::Chunk(chunk.len() as u64)), TransferAction::Write(_)));
        resumed.extend_from_slice(chunk);
    }
    assert!(matches!(u.step(TransferEvent::BodyEnded), TransferAction::Finish(_)));

    let mut fresh: Vec<u8> = vec![9; 17];
    let (mut v, a) = TransferUnit::begin(None);
    assert_eq!(a, TransferAction::FetchAll);
    fresh.clear();
    assert_eq!(
        v.step(TransferEvent::BodyAnswered { status: 200, length: Some(3_000) }),
        TransferAction::Receive
    );
    for chunk in res.chunks(1_000) {
        v.step(TransferEvent::Chunk(chunk.len() as u64));
        fresh.extend_from_slice(chunk);
    }
    assert!(matches!(v.step(TransferEvent::BodyEnded), TransferAction::Finish(_)));
    assert_eq!(u.phase, TransferPhase::Complete);
    assert_eq!(v.phase, TransferPhase::Complete);
    assert_eq!(resumed, fresh);
    assert_eq!(resumed, res);
}

#[test]
fn complete_file_is_finished_after_probe() {
    let (mut u, a) = TransferUnit::begin(Some(5_000));
    assert_eq!(a, TransferAction::Probe);
    assert_eq!(
        u.step(TransferEvent::ProbeAnswered { status: 200, length: Some(5_000) }),
        TransferAction::Finish(0)
    );
    assert_eq!(u.phase, TransferPhase::Complete);
    let (mut w, _) = TransferUnit::begin(Some(7_000));
    assert_eq!(
        w.step(TransferEvent::ProbeAnswered { status: 204, length: Some(5_000) }),
        TransferAction::Finish(0)
    );
    assert_eq!(w.written, 7_000);
}

#[test]
fn probe_failures_are_remote_unavailable() {
    let (mut u, _) = TransferUnit::begin(Some(10));
    assert_eq!(
        u.step(TransferEvent::ProbeAnswered { status: 404, length: Some(100) }),
        TransferAction::Abort(TransferError::RemoteUnavailable)
    );
    assert_eq!(u.phase, TransferPhase::Failed(TransferError::RemoteUnavailable));
    let (mut v, _) = TransferUnit::begin(Some(10));
    assert_eq!(v.step(TransferEvent::ProbeFailed), TransferAction::Abort(TransferError::RemoteUnavailable));
    let (mut w, _) = TransferUnit::begin(Some(10));
    assert_eq!(
        w.step(TransferEvent::ProbeAnswered { status: 200, length: None }),
        TransferAction::Abort(TransferError::LengthUnknown)
    );
}

#[test]
fn fresh_download_without_length_fails() {
    let (mut u, _) = TransferUnit::begin(None);
    assert_eq!(
        u.step(TransferEvent::BodyAnswered { status: 200, length: None }),
        TransferAction::Abort(TransferError::LengthUnknown)
    );
}

#[test]
fn transfer_faults_are_reported() {
    let (mut u, _) = TransferUnit::begin(None);
    assert_eq!(
        u.step(TransferEvent::BodyAnswered { status: 503, length: Some(1) }),
        TransferAction::Abort(TransferError::Transfer(TransferFault::Status(503)))
    );
    let (mut v, _) = TransferUnit::begin(None);
    v.step(TransferEvent::BodyAnswered { status: 200, length: Some(10) });
    v.step(TransferEvent::Chunk(6));
    assert_eq!(
        v.step(TransferEvent::Chunk(6)),
        TransferAction::Abort(TransferError::Transfer(TransferFault::Overrun))
    );
    assert_eq!(v.written, 6);
    let (mut w, _) = TransferUnit::begin(None);
    w.step(TransferEvent::BodyAnswered { status: 200, length: Some(10) });
    w.step(TransferEvent::Chunk(4));
    assert_eq!(
        w.step(TransferEvent::BodyEnded),
        TransferAction::Abort(TransferError::Transfer(TransferFault::ShortBody))
    );
    assert_eq!(w.written, 4);
    let (mut x, _) = TransferUnit::begin(None);
    x.step(TransferEvent::BodyAnswered { status: 200, length: Some(10) });
    x.step(TransferEvent::Chunk(3));
    assert_eq!(
        x.step(TransferEvent::StreamFailed),
        TransferAction::Abort(TransferError::Transfer(TransferFault::Stream))
    );
    assert_eq!(x.step(TransferEvent::Chunk(3)), TransferAction::Idle);
    assert_eq!(x.written, 3);
    let (mut y, _) = TransferUnit::begin(None);
    assert_eq!(
        y.step(TransferEvent::RequestFailed),
        TransferAction::Abort(TransferError::Transfer(TransferFault::Network))
    );
    let (mut z, _) = TransferUnit::begin(None);
    z.step(TransferEvent::BodyAnswered { status: 200, length: Some(10) });
    assert_eq!(
        z.step(TransferEvent::DiskFailed),
        TransferAction::Abort(TransferError::Transfer(TransferFault::Disk))
    );
}

#[test]
fn progress_advances_in_batches() {
    let (mut u, _) = TransferUnit::begin(None);
    u.step(TransferEvent::BodyAnswered { status: 200, length: Some(3 * PROGRESS_BATCH) });
    assert_eq!(u.step(TransferEvent::Chunk(PROGRESS_BATCH)), TransferAction::Write(0));
    assert_eq!(u.step(TransferEvent::Chunk(1)), TransferAction::Write(PROGRESS_BATCH + 1));
    assert_eq!(u.shown, PROGRESS_BATCH + 1);
    assert_eq!(u.step(TransferEvent::Chunk(PROGRESS_BATCH - 1)), TransferAction::Write(0));
    assert_eq!(u.step(TransferEvent::Chunk(PROGRESS_BATCH)), TransferAction::Write(2 * PROGRESS_BATCH - 1));
    assert_eq!(u.shown, 3 * PROGRESS_BATCH);
    assert_eq!(u.step(TransferEvent::BodyEnded), TransferAction::Finish(0));
    let (mut v, _) = TransferUnit::begin(None);
    v.step(TransferEvent::BodyAnswered { status: 200, length: Some(10) });
    assert_eq!(v.step(TransferEvent::Chunk(10)), TransferAction::Write(0));
    assert_eq!(v.step(TransferEvent::BodyEnded), TransferAction::Finish(10));
    assert_eq!(v.shown, 10);
}

#[test]
fn empty_resource_completes() {
    let (mut u, _) = TransferUnit::begin(None);
    u.step(TransferEvent::BodyAnswered { status: 200, length: Some(0) });
    assert_eq!(u.step(TransferEvent::BodyEnded), TransferAction::Finish(0));
    assert_eq!(u.phase, TransferPhase::Complete);
}

#[test]
fn range_header_forms() {
    assert_eq!(range_header(Some(0), Some(1023)).unwrap(), "bytes=0-1023");
    assert_eq!(range_header(Some(30), None).unwrap(), "bytes=30-");
    assert_eq!(range_header(None, Some(500)).unwrap(), "bytes=-500");
    assert_eq!(range_header(None, None), None);
    assert_eq!(
        range_header(Some(u64::MAX), None).unwrap(),
        "bytes=18446744073709551615-"
    );
}
