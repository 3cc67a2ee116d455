use progress_hashing::hashing::hash_bytes;
use progress_hashing::pipeline::{collection_failed_events, dispatch_events};
use progress_hashing::{PipelineRun, ProgressHashingError, WorkStatus};

fn paths(v: &[&str]) -> Vec<String> {
    let mut out = Vec::new();
    for s in v {
        out.push(s.to_string());
    }
    out
}

#[test]
fn three_files_scenario() {
    let p = paths(&["a", "b", "c"]);
    let outcomes = vec![
        Some(hash_bytes(b"x")),
        Some(hash_bytes(b"y")),
        Some(hash_bytes(b"x")),
    ];
    let events = dispatch_events(&p, &outcomes);

    assert_eq!(events.len(), 5);
    assert!(matches!(events[0], WorkStatus::Started(3)));
    for ev in &events[1..4] {
        assert!(matches!(ev, WorkStatus::Progress(_)));
    }
    match &events[4] {
        WorkStatus::Result(m) => {
            assert_eq!(m.len(), 3);
            let da = m.get(&"a".to_string()).unwrap().clone();
            let db = m.get(&"b".to_string()).unwrap().clone();
            let dc = m.get(&"c".to_string()).unwrap().clone();
            assert_eq!(da, dc);
            assert_ne!(da, db);
        }
        _ => panic!("last event must be the result mapping"),
    }
}

#[test]
fn empty_directory_scenario() {
    let no_paths: Vec<String> = Vec::new();
    let no_outcomes: Vec<Option<String>> = Vec::new();
    let events = dispatch_events(&no_paths, &no_outcomes);

    assert_eq!(events.len(), 2);
    assert!(matches!(events[0], WorkStatus::Started(0)));
    match &events[1] {
        WorkStatus::Result(m) => assert_eq!(m.len(), 0),
        _ => panic!("last event must be the empty result mapping"),
    }
}

#[test]
fn inaccessible_root_scenario() {
    let events = collection_failed_events();
    assert_eq!(events.len(), 1);
    assert!(matches!(
        events[0],
        WorkStatus::Error(ProgressHashingError::ErrCollectingFiles)
    ));
}

#[test]
fn per_file_failure_is_non_fatal() {
    let p = paths(&["good", "bad"]);
    let outcomes = vec![Some(hash_bytes(b"data")), None];
    let events = dispatch_events(&p, &outcomes);

    assert_eq!(events.len(), 4);
    assert!(matches!(&events[1], WorkStatus::Progress(_)));
    assert!(matches!(
        &events[2],
        WorkStatus::Error(ProgressHashingError::ErrHashingFile)
    ));
    match &events[3] {
        WorkStatus::Result(m) => {
            assert_eq!(m.len(), 2);
            assert_eq!(m.get(&"bad".to_string()).unwrap().as_str(), "");
            assert_eq!(
                m.get(&"good".to_string()).unwrap().as_str(),
                hash_bytes(b"data").as_str()
            );
        }
        _ => panic!("last event must be the result mapping"),
    }
}

#[test]
fn progress_counters_form_initial_segment() {
    let p = paths(&["a", "b", "c", "d", "e"]);
    let outcomes = vec![
        Some(hash_bytes(b"1")),
        None,
        Some(hash_bytes(b"2")),
        Some(hash_bytes(b"3")),
        None,
    ];
    let events = dispatch_events(&p, &outcomes);

    let mut counters: Vec<usize> = Vec::new();
    for ev in &events {
        if let WorkStatus::Progress(u) = ev {
            counters.push(u.total_hashed_files);
        }
    }
    counters.sort();
    assert_eq!(counters, vec![0, 1, 2]);
}

#[test]
fn incremental_run_emits_expected_events() {
    let (started, mut run) = PipelineRun::start(2);
    assert!(matches!(started, WorkStatus::Started(2)));

    let ev1 = run.record_success("a".to_string(), hash_bytes(b"x"));
    match ev1 {
        WorkStatus::Progress(u) => {
            assert_eq!(u.current_file.as_str(), "a");
            assert_eq!(u.total_hashed_files, 0);
        }
        _ => panic!("a success must yield a progress event"),
    }

    let ev2 = run.record_failure("b".to_string());
    assert!(matches!(
        ev2,
        WorkStatus::Error(ProgressHashingError::ErrHashingFile)
    ));

    match run.finish() {
        WorkStatus::Result(m) => {
            assert_eq!(m.len(), 2);
            assert_eq!(
                m.get(&"a".to_string()).unwrap().as_str(),
                hash_bytes(b"x").as_str()
            );
            assert_eq!(m.get(&"b".to_string()).unwrap().as_str(), "");
        }
        _ => panic!("finishing must yield the result mapping"),
    }
}
