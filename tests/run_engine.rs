use firststep_name::engine::{run_batches, CheckRun, RunError};
use firststep_name::site::{FetchOutcome, SiteData};

fn catalog(n: usize) -> Vec<SiteData> {
    (0..n)
        .map(|i| SiteData {
            name: format!("site{}", i),
            uri_check: format!("https://s{}.example.com/{{account}}", i),
            e_code: 200,
            e_string: "profile".to_string(),
            m_string: "missing".to_string(),
            m_code: 404,
            known: Vec::new(),
            cat: "misc".to_string(),
        })
        .collect()
}

fn found() -> FetchOutcome {
    FetchOutcome::Response { code: 200, body: "profile page".to_string() }
}

fn absent() -> FetchOutcome {
    FetchOutcome::Response { code: 404, body: "missing".to_string() }
}

fn broken() -> FetchOutcome {
    FetchOutcome::Failed { detail: "operation timed out".to_string() }
}

#[test]
fn new_rejects_empty_username() {
    assert!(matches!(
        CheckRun::new(String::new(), catalog(3), 2),
        Err(RunError::EmptyUsername)
    ));
}

#[test]
fn new_rejects_parallelism_out_of_range() {
    assert!(matches!(
        CheckRun::new("alice".to_string(), catalog(3), 0),
        Err(RunError::ThreadsOutOfRange)
    ));
    assert!(matches!(
        CheckRun::new("alice".to_string(), catalog(3), 100),
        Err(RunError::ThreadsOutOfRange)
    ));
    assert!(CheckRun::new("alice".to_string(), catalog(3), 99).is_ok());
}

#[test]
fn batch_barrier_holds_back_next_batch() {
    let mut run = CheckRun::new("alice".to_string(), catalog(5), 2).ok().unwrap();
    let b0 = run.next_batch().unwrap();
    assert_eq!(b0.iter().map(|p| p.index).collect::<Vec<_>>(), vec![0, 1]);
    assert_eq!(b0[0].url, "https://s0.example.com/alice");
    assert!(run.next_batch().is_none());
    assert!(run.complete(1, found()).is_some());
    assert!(run.next_batch().is_none());
    assert!(run.complete(0, absent()).is_some());
    let b1 = run.next_batch().unwrap();
    assert_eq!(b1.iter().map(|p| p.index).collect::<Vec<_>>(), vec![2, 3]);
    assert!(run.complete(3, found()).is_some());
    assert!(run.complete(2, found()).is_some());
    let b2 = run.next_batch().unwrap();
    assert_eq!(b2.iter().map(|p| p.index).collect::<Vec<_>>(), vec![4]);
    assert!(run.complete(4, found()).is_some());
    assert!(run.next_batch().is_none());
    assert!(run.is_complete());
}

#[test]
fn complete_ignores_probes_not_in_flight() {
    let mut run = CheckRun::new("alice".to_string(), catalog(3), 1).ok().unwrap();
    assert!(run.complete(0, found()).is_none());
    run.next_batch().unwrap();
    assert!(run.complete(1, found()).is_none());
    assert!(run.complete(7, found()).is_none());
    assert!(run.complete(0, found()).is_some());
    assert!(run.complete(0, found()).is_none());
    assert_eq!(run.completed(), 1);
}

#[test]
fn progress_events_count_up_in_completion_order() {
    let mut run = CheckRun::new("alice".to_string(), catalog(3), 3).ok().unwrap();
    run.next_batch().unwrap();
    let e2 = run.complete(2, found()).unwrap();
    let e0 = run.complete(0, broken()).unwrap();
    assert!(run.finish().is_none());
    let e1 = run.complete(1, absent()).unwrap();
    assert_eq!((e2.completed, e0.completed, e1.completed), (1, 2, 3));
    assert_eq!((e2.total, e0.total, e1.total), (3, 3, 3));
    assert_eq!(e2.site, "site2");
    assert!(e2.is_taken);
    assert_eq!(e0.status, "Error");
    assert_eq!(e0.error.as_deref(), Some("operation timed out"));
    assert!(!e1.is_taken);
    assert_eq!(e1.status, "Available");
    let fin = run.finish().unwrap();
    assert_eq!(fin.total, 3);
    assert!(run.finish().is_none());
    let results = run.into_results();
    let names: Vec<&str> = results.iter().map(|r| r.site.as_str()).collect();
    assert_eq!(names, vec!["site2", "site0", "site1"]);
}

#[test]
fn empty_catalog_finishes_at_once() {
    let mut run = CheckRun::new("alice".to_string(), Vec::new(), 4).ok().unwrap();
    assert!(run.next_batch().is_none());
    assert_eq!(run.finish().unwrap().total, 0);
    assert!(run.into_results().is_empty());
}

#[test]
fn run_returns_one_result_per_site() {
    let n = 7;
    let outcomes = (0..n).map(|i| if i % 2 == 0 { found() } else { absent() }).collect();
    let rep = run_batches("alice".to_string(), catalog(n), 3, outcomes).ok().unwrap();
    assert_eq!(rep.results.len(), n);
    for (i, r) in rep.results.iter().enumerate() {
        assert_eq!(r.site, format!("site{}", i));
        assert_eq!(r.url, format!("https://s{}.example.com/alice", i));
        assert_eq!(r.status, if i % 2 == 0 { "Taken" } else { "Available" });
    }
    let counts: Vec<usize> = rep.events.iter().map(|e| e.completed).collect();
    assert_eq!(counts, (1..=n).collect::<Vec<_>>());
    assert!(rep.events.iter().all(|e| e.total == n));
    assert_eq!(rep.finished.total, n);
}

#[test]
fn one_failure_does_not_stop_its_batch() {
    let outcomes = vec![found(), broken(), absent(), found()];
    let rep = run_batches("alice".to_string(), catalog(4), 4, outcomes).ok().unwrap();
    assert_eq!(rep.results.len(), 4);
    assert_eq!(rep.events.len(), 4);
    assert_eq!(rep.results[1].status, "Error");
    assert_eq!(rep.results[1].error.as_deref(), Some("operation timed out"));
    assert_eq!(rep.results[0].status, "Taken");
    assert_eq!(rep.results[2].status, "Available");
    assert_eq!(rep.results[3].status, "Taken");
    assert_eq!(rep.events[3].completed, 4);
}

#[test]
fn run_refuses_bad_configuration() {
    assert!(matches!(
        run_batches(String::new(), catalog(2), 2, vec![found(), found()]),
        Err(RunError::EmptyUsername)
    ));
    assert!(matches!(
        run_batches("bob".to_string(), catalog(2), 0, vec![found(), found()]),
        Err(RunError::ThreadsOutOfRange)
    ));
}
