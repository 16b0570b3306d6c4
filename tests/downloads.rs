use fossintosh::cancel::CancelRegistry;
use fossintosh::download::{advance, begin_download, cancel_download, DownloadEvent, DownloadStep};

fn s(x: &str) -> String {
    x.to_string()
}

#[test]
fn cancel_request_for_unknown_download_is_ignored() {
    let mut reg = CancelRegistry::new();
    assert!(!reg.request_cancel(&s("vlc")));
    assert!(!reg.is_cancelled(&s("vlc")));
}

#[test]
fn consume_reports_and_clears_the_flag() {
    let mut reg = CancelRegistry::new();
    reg.begin(&s("vlc"));
    assert!(reg.request_cancel(&s("vlc")));
    assert!(reg.is_cancelled(&s("vlc")));
    assert!(reg.consume(&s("vlc")));
    assert!(!reg.is_cancelled(&s("vlc")));
    assert!(!reg.consume(&s("vlc")));
}

#[test]
fn cancellation_flag_is_single_use() {
    let mut reg = CancelRegistry::new();
    let id = s("firefox");
    let mut job = begin_download(&mut reg, &id, &s("/tmp/firefox.dmg"));
    assert!(reg.request_cancel(&id));
    let step = advance(&mut reg, &mut job, DownloadEvent::Chunk(10));
    assert!(matches!(step, DownloadStep::Cancelled(_, _)));
    // A cancel that arrives after the job has ended changes nothing.
    assert!(!reg.request_cancel(&id));
    let mut again = begin_download(&mut reg, &id, &s("/tmp/firefox.dmg"));
    assert!(!reg.is_cancelled(&id));
    let step = advance(&mut reg, &mut again, DownloadEvent::Chunk(10));
    assert!(matches!(step, DownloadStep::Write(_)));
}

#[test]
fn stale_flag_is_dropped_when_a_new_download_starts() {
    let mut reg = CancelRegistry::new();
    let id = s("gimp");
    reg.begin(&id);
    assert!(reg.request_cancel(&id));
    let mut job = begin_download(&mut reg, &id, &s("/tmp/gimp.dmg"));
    let step = advance(&mut reg, &mut job, DownloadEvent::Chunk(1));
    assert!(matches!(step, DownloadStep::Write(_)));
}

/// Feeds `chunks` chunk sizes, asking for cancellation just before chunk
/// `cancel_at`; returns how many chunks were written and the last step.
fn run_with_cancel(chunks: &[u64], cancel_at: usize) -> (usize, Vec<DownloadStep>) {
    let mut reg = CancelRegistry::new();
    let id = s("app");
    let mut job = begin_download(&mut reg, &id, &s("/tmp/app.dmg"));
    let mut steps = Vec::new();
    steps.push(advance(&mut reg, &mut job, DownloadEvent::Responded { content_length: Some(100) }));
    let mut written = 0;
    for (k, len) in chunks.iter().enumerate() {
        if k == cancel_at {
            reg.request_cancel(&id);
        }
        let step = advance(&mut reg, &mut job, DownloadEvent::Chunk(*len));
        if matches!(step, DownloadStep::Write(_)) {
            written += 1;
        }
        steps.push(step);
    }
    steps.push(advance(&mut reg, &mut job, DownloadEvent::Finished));
    (written, steps)
}

#[test]
fn no_chunk_is_written_after_cancellation() {
    for k in 0..5 {
        let (written, steps) = run_with_cancel(&[20, 20, 20, 20, 20], k);
        assert_eq!(written, k);
        match &steps[k + 1] {
            DownloadStep::Cancelled(c, m) => {
                assert!(!c.success);
                assert_eq!(c.file_path, "");
                assert_eq!(c.error.as_deref(), Some("Download cancelled"));
                assert_eq!(m, "Download cancelled: app");
            }
            _ => panic!("expected the cancellation at chunk {}", k),
        }
        for later in &steps[k + 2..] {
            assert!(matches!(later, DownloadStep::Idle));
        }
    }
}

#[test]
fn uncancelled_download_ends_at_one_hundred_percent() {
    let (written, steps) = run_with_cancel(&[25, 25, 50], 99);
    assert_eq!(written, 3);
    match &steps[3] {
        DownloadStep::Write(p) => {
            assert_eq!(p.progress_hundredths, 10000);
            assert_eq!(p.downloaded, 100);
            assert_eq!(p.total, 100);
            assert_eq!(p.status, "Downloading: 100.0%");
            assert_eq!(p.app_id, "app");
        }
        _ => panic!("expected a write"),
    }
    match &steps[4] {
        DownloadStep::Finished(c, m) => {
            assert!(c.success);
            assert_eq!(c.file_path, "/tmp/app.dmg");
            assert!(c.error.is_none());
            assert_eq!(m, "Downloaded app to: /tmp/app.dmg");
        }
        _ => panic!("expected the end"),
    }
}

#[test]
fn progress_below_the_total_is_exact_in_hundredths() {
    let (_, steps) = run_with_cancel(&[1, 2], 99);
    match &steps[1] {
        DownloadStep::Write(p) => {
            assert_eq!(p.progress_hundredths, 100);
            assert_eq!(p.status, "Downloading: 1.0%");
        }
        _ => panic!("expected a write"),
    }
    match &steps[2] {
        DownloadStep::Write(p) => {
            assert_eq!(p.progress_hundredths, 300);
            assert_eq!(p.status, "Downloading: 3.0%");
        }
        _ => panic!("expected a write"),
    }
}

#[test]
fn unknown_total_gives_zero_percent() {
    let mut reg = CancelRegistry::new();
    let id = s("x");
    let mut job = begin_download(&mut reg, &id, &s("/d/x.dmg"));
    advance(&mut reg, &mut job, DownloadEvent::Responded { content_length: None });
    match advance(&mut reg, &mut job, DownloadEvent::Chunk(7)) {
        DownloadStep::Write(p) => {
            assert_eq!(p.progress_hundredths, 0);
            assert_eq!(p.total, 0);
            assert_eq!(p.downloaded, 7);
            assert_eq!(p.status, "Downloading: 700.0%");
        }
        _ => panic!("expected a write"),
    }
}

#[test]
fn start_event_is_at_zero() {
    let mut reg = CancelRegistry::new();
    let job = begin_download(&mut reg, &s("x"), &s("/d/x.dmg"));
    let p = job.start_event();
    assert_eq!(p.app_id, "x");
    assert_eq!(p.progress_hundredths, 0);
    assert_eq!(p.status, "Starting download...");
}

#[test]
fn failures_carry_their_description() {
    let cases = vec![
        (DownloadEvent::RequestError(s("refused")), "Failed to download: refused"),
        (DownloadEvent::CreateError(s("denied")), "Failed to create file: denied"),
        (DownloadEvent::TransportError(s("reset")), "Download error: reset"),
        (DownloadEvent::WriteError(s("full")), "Failed to write to file: full"),
        (DownloadEvent::FlushError(s("io")), "Failed to flush file: io"),
    ];
    for (event, message) in cases {
        let mut reg = CancelRegistry::new();
        let id = s("y");
        let mut job = begin_download(&mut reg, &id, &s("/d/y.dmg"));
        match advance(&mut reg, &mut job, event) {
            DownloadStep::Failed(c, m) => {
                assert_eq!(m, message);
                assert_eq!(c.error.as_deref(), Some(message));
                assert!(!c.success);
                assert_eq!(c.file_path, "");
            }
            _ => panic!("expected a failure"),
        }
        // the job is over and forgotten by the registry
        assert!(!reg.request_cancel(&id));
    }
}

#[test]
fn cancellation_is_checked_before_a_stream_error() {
    let mut reg = CancelRegistry::new();
    let id = s("z");
    let mut job = begin_download(&mut reg, &id, &s("/d/z.dmg"));
    reg.request_cancel(&id);
    let step = advance(&mut reg, &mut job, DownloadEvent::TransportError(s("reset")));
    assert!(matches!(step, DownloadStep::Cancelled(_, _)));
}

#[test]
fn stream_end_is_not_stopped_by_a_late_flag() {
    let mut reg = CancelRegistry::new();
    let id = s("w");
    let mut job = begin_download(&mut reg, &id, &s("/d/w.dmg"));
    reg.request_cancel(&id);
    let step = advance(&mut reg, &mut job, DownloadEvent::Finished);
    assert!(matches!(step, DownloadStep::Finished(_, _)));
    assert!(!reg.is_cancelled(&id));
}

#[test]
fn cancel_download_acknowledges_and_flags_only_running_jobs() {
    let mut reg = CancelRegistry::new();
    assert_eq!(cancel_download(&mut reg, &s("vlc")), "Download cancelled for app: vlc");
    assert!(!reg.is_cancelled(&s("vlc")));
    reg.begin(&s("vlc"));
    cancel_download(&mut reg, &s("vlc"));
    cancel_download(&mut reg, &s("vlc"));
    assert!(reg.is_cancelled(&s("vlc")));
    assert!(reg.consume(&s("vlc")));
    assert!(!reg.is_cancelled(&s("vlc")));
}

#[test]
fn status_rounds_to_one_decimal() {
    let mut reg = CancelRegistry::new();
    let id = s("r");
    let mut job = begin_download(&mut reg, &id, &s("/d/r.dmg"));
    advance(&mut reg, &mut job, DownloadEvent::Responded { content_length: Some(3) });
    match advance(&mut reg, &mut job, DownloadEvent::Chunk(2)) {
        DownloadStep::Write(p) => {
            assert_eq!(p.status, "Downloading: 66.7%");
            assert_eq!(p.progress_hundredths, 6666);
        }
        _ => panic!("expected a write"),
    }
}
