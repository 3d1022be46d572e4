use bakeneko::downloads::{batch_results, DownloadJob, JobStep, apply_event, ds_to_str, state_label, str_to_ds, take_batch, DownloadEntry, DownloadEvent, DownloadState, State};

fn entry(id: i64, url: &str) -> DownloadEntry {
    DownloadEntry { manga_id: id, chapter_url: url.into(), state: DownloadState::Queued, total_pages: 0, done_pages: 0 }
}

#[test]
fn states_have_stored_names() {
    for s in [DownloadState::Idle, DownloadState::Queued, DownloadState::Downloading, DownloadState::Done, DownloadState::Error] {
        assert_eq!(str_to_ds(ds_to_str(s)), s);
    }
    assert_eq!(ds_to_str(DownloadState::Downloading), "downloading");
    assert_eq!(str_to_ds("???"), DownloadState::Idle);
    assert!(!state_label(DownloadState::Done).is_empty());
}

#[test]
fn events_update_the_queue_in_place() {
    let mut st = State { entries: Vec::new() };
    apply_event(&mut st, DownloadEvent::Queued(1, "/c1".into()));
    apply_event(&mut st, DownloadEvent::Progress { manga_id: 1, chapter_url: "/c1".into(), done: 2, total: 5 });
    apply_event(&mut st, DownloadEvent::Queued(1, "/c1".into()));
    assert_eq!(st.entries.len(), 1);
    assert_eq!(st.entries[0].state, DownloadState::Queued);
    assert_eq!((st.entries[0].done_pages, st.entries[0].total_pages), (2, 5));
    apply_event(&mut st, DownloadEvent::Done(1, "/c1".into()));
    assert_eq!(st.entries[0].state, DownloadState::Done);
    apply_event(&mut st, DownloadEvent::Errored(2, "/x".into(), "boom".into()));
    assert_eq!(st.entries.len(), 1);
}

#[test]
fn a_round_takes_the_first_jobs() {
    let jobs = vec![entry(1, "/a"), entry(2, "/b"), entry(3, "/c")];
    let batch = take_batch(jobs, 2);
    assert_eq!(batch.iter().map(|e| e.manga_id).collect::<Vec<_>>(), vec![1, 2]);
}

#[test]
fn a_job_reports_each_page_and_its_end() {
    let mut job = DownloadJob::start(4, "/c".into(), 0);
    let a = job.step(JobStep::Begin);
    assert_eq!(a.set_state, Some(DownloadState::Downloading));
    assert!(a.event.is_none() && !a.stop);
    let a = job.step(JobStep::PagesListed(2));
    assert!(a.set_state.is_none() && a.event.is_none() && !a.stop);
    assert_eq!((job.done, job.total), (0, 2));
    let a = job.step(JobStep::PageSaved);
    match a.event {
        Some(DownloadEvent::Progress { manga_id, chapter_url, done, total }) => {
            assert_eq!((manga_id, chapter_url.as_str(), done, total), (4, "/c", 1, 2));
        }
        _ => panic!("progress expected"),
    }
    assert!(a.set_state.is_none() && !a.stop);
    job.step(JobStep::PageSaved);
    assert_eq!(job.done, 2);
    let a = job.step(JobStep::Finished);
    assert_eq!(a.set_state, Some(DownloadState::Done));
    assert!(a.stop);
    assert!(matches!(a.event, Some(DownloadEvent::Done(4, ref u)) if u == "/c"));
    let a = job.step(JobStep::PageFailed("x".into()));
    assert_eq!(a.set_state, Some(DownloadState::Error));
    assert!(a.stop);
    assert!(matches!(a.event, Some(DownloadEvent::Errored(4, ref u, ref m)) if u == "/c" && m == "x"));
}

#[test]
fn page_counts_wrap_like_the_manager() {
    let job = DownloadJob::start(1, "/c".into(), (i32::MAX as usize) + 1);
    assert_eq!(job.total, i32::MIN);
}

#[test]
fn a_failure_does_not_stop_the_batch() {
    let batch = vec![entry(1, "/a"), entry(2, "/b"), entry(3, "/c")];
    let failures = vec![None, Some("HTTP 404".to_string()), None];
    let r = batch_results(&batch, &failures);
    assert_eq!(r.len(), 3);
    assert_eq!(r[0].0, DownloadState::Done);
    assert!(matches!(r[0].1, DownloadEvent::Done(1, ref u) if u == "/a"));
    assert_eq!(r[1].0, DownloadState::Error);
    assert!(matches!(r[1].1, DownloadEvent::Errored(2, ref u, ref m) if u == "/b" && m == "HTTP 404"));
    assert_eq!(r[2].0, DownloadState::Done);
    assert!(matches!(r[2].1, DownloadEvent::Done(3, ref u) if u == "/c"));
}
