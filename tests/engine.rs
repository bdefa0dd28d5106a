use artifact_sync::{
    evaluate, file_sha1, plan, ArtifactDescriptor, Decision, FailureCause, FetchAction, FetchEvent,
    FetchPhase, FetchSession, FileType, LocalState, OperatingSystem, OsName, OsRule, RuleAction,
    SyncError, SyncRun, MAX_ATTEMPTS, RETRY_DELAY_SECS,
};

fn linux() -> OperatingSystem {
    OperatingSystem::new(OsName::Linux, "x86_64".to_string())
}

fn windows() -> OperatingSystem {
    OperatingSystem::new(OsName::Windows, "x86_64".to_string())
}

fn rule(action: RuleAction, conds: &[(&str, &str)]) -> OsRule {
    OsRule {
        action,
        os: conds.iter().map(|(k, v)| (k.to_string(), v.to_string())).collect(),
    }
}

fn hex_of(bytes: &[u8]) -> String {
    bytes.iter().map(|b| format!("{:02x}", b)).collect()
}

fn content(size: usize, seed: u8) -> Vec<u8> {
    (0..size).map(|i| (i as u8).wrapping_mul(31).wrapping_add(seed)).collect()
}

fn file_descriptor(path: &str, data: &[u8], rules: Vec<OsRule>) -> ArtifactDescriptor {
    ArtifactDescriptor::file(
        path.to_string(),
        format!("http://example.invalid/{}", path),
        hex_of(&file_sha1(data)),
        data.len() as u64,
        rules,
    )
}

fn link_descriptor(path: &str, target: &str) -> ArtifactDescriptor {
    ArtifactDescriptor {
        relative_path: path.to_string(),
        kind: FileType::Link,
        source: None,
        symlink_target: Some(target.to_string()),
        executable: false,
        rules: Vec::new(),
    }
}

/// Drives a run to its end: each fetch task receives its content in two
/// chunks and the digest of what was written is checked for real.
fn drive(run: &mut SyncRun, ds: &[ArtifactDescriptor], contents: &[Vec<u8>]) -> usize {
    let mut requests = 0;
    let mut running: Vec<usize> = Vec::new();
    loop {
        while let Some(t) = run.schedule() {
            running.push(t);
        }
        if running.is_empty() {
            break;
        }
        let t = running.remove(0);
        let task = run.task(t);
        match task.decision {
            Decision::Fetch => {
                let data = &contents[task.index];
                let expected = ds[task.index].source.as_ref().unwrap().sha1.clone();
                requests += 1;
                assert_eq!(run.fetch_step(t, FetchEvent::Responded { ok: true }), FetchAction::ReadBody);
                let half = data.len() / 2;
                let mut written: Vec<u8> = Vec::new();
                for chunk in [&data[..half], &data[half..]] {
                    let a = run.fetch_step(t, FetchEvent::Chunk { len: chunk.len() as u64 });
                    assert!(matches!(a, FetchAction::Write { .. }));
                    written.extend_from_slice(chunk);
                }
                assert_eq!(run.fetch_step(t, FetchEvent::StreamEnded), FetchAction::Verify);
                let ok = artifact_sync::check_file_hash(&written, &expected);
                assert_eq!(run.fetch_step(t, FetchEvent::Verified { ok }), FetchAction::Complete);
            }
            _ => run.finish_local(t, true),
        }
    }
    assert!(run.is_done());
    requests
}

#[test]
fn empty_rules_include() {
    assert!(evaluate(&Vec::new(), &linux()));
    assert!(evaluate(&Vec::new(), &windows()));
}

#[test]
fn platform_filtering_excludes_on_other_os() {
    let rules = vec![rule(RuleAction::Allow, &[("name", "linux")])];
    assert!(!evaluate(&rules, &windows()));
    assert!(evaluate(&rules, &linux()));

    let data = content(10, 1);
    let ds = vec![file_descriptor("lib.jar", &data, rules)];
    let tasks = plan(&ds, &windows(), &vec![LocalState::Missing]).unwrap();
    assert!(tasks.is_empty());
    let mut run = SyncRun::start(&ds, &windows(), &vec![LocalState::Missing], 4).unwrap();
    assert_eq!(drive(&mut run, &ds, &[data]), 0);
    assert_eq!(run.outcome(), Ok(()));
}

#[test]
fn rules_present_but_none_matching_exclude() {
    let rules = vec![rule(RuleAction::Allow, &[("name", "osx")])];
    assert!(!evaluate(&rules, &linux()));
}

#[test]
fn last_matching_rule_wins() {
    let rules = vec![
        rule(RuleAction::Allow, &[]),
        rule(RuleAction::Disallow, &[("name", "osx")]),
    ];
    assert!(evaluate(&rules, &linux()));
    let mac = OperatingSystem::new(OsName::MacOs, "aarch64".to_string());
    assert!(!evaluate(&rules, &mac));
}

#[test]
fn evaluate_is_repeatable() {
    let rules = vec![
        rule(RuleAction::Allow, &[("name", "linux")]),
        rule(RuleAction::Disallow, &[("arch", "x86")]),
    ];
    let p = linux();
    let first = evaluate(&rules, &p);
    for _ in 0..10 {
        assert_eq!(evaluate(&rules, &p), first);
    }
    assert!(first);
}

#[test]
fn reordering_disjoint_rules_keeps_result() {
    let a = rule(RuleAction::Allow, &[("name", "linux")]);
    let b = rule(RuleAction::Disallow, &[("name", "windows")]);
    for p in [linux(), windows()] {
        let ab = evaluate(&vec![a.clone(), b.clone()], &p);
        let ba = evaluate(&vec![b.clone(), a.clone()], &p);
        assert_eq!(ab, ba);
    }
}

#[test]
fn reordering_overlapping_rules_can_change_result() {
    let a = rule(RuleAction::Allow, &[]);
    let b = rule(RuleAction::Disallow, &[("name", "linux")]);
    let p = linux();
    assert!(!evaluate(&vec![a.clone(), b.clone()], &p));
    assert!(evaluate(&vec![b, a], &p));
}

#[test]
fn unknown_condition_keys_are_ignored() {
    let rules = vec![rule(RuleAction::Allow, &[("feature", "is_demo_user"), ("name", "linux")])];
    assert!(evaluate(&rules, &linux()));
}

#[test]
fn arch_condition_compares_architecture() {
    let rules = vec![rule(RuleAction::Allow, &[("arch", "x86")])];
    assert!(!evaluate(&rules, &linux()));
    assert!(evaluate(&rules, &OperatingSystem::new(OsName::Linux, "x86".to_string())));
}

#[test]
fn fresh_install_fetches_everything() {
    let contents = vec![content(10, 1), content(20, 2), content(30, 3)];
    let ds: Vec<ArtifactDescriptor> = contents
        .iter()
        .enumerate()
        .map(|(i, c)| file_descriptor(&format!("f{}", i), c, Vec::new()))
        .collect();
    let observed = vec![LocalState::Missing, LocalState::Missing, LocalState::Missing];
    let tasks = plan(&ds, &linux(), &observed).unwrap();
    assert_eq!(tasks.len(), 3);
    assert!(tasks.iter().all(|t| t.decision == Decision::Fetch));
    let mut run = SyncRun::start(&ds, &linux(), &observed, 2).unwrap();
    assert_eq!(run.progress().get_total_bytes_to_download(), 60);
    assert_eq!(run.progress().get_total_files_to_download(), 3);
    assert_eq!(drive(&mut run, &ds, &contents), 3);
    assert_eq!(run.outcome(), Ok(()));
    assert_eq!(run.progress().get_total_files_downloaded(), 3);
    assert_eq!(run.progress().get_total_bytes_downloaded(), 60);
}

#[test]
fn aggregate_bytes_do_not_depend_on_limit() {
    let sizes = [7usize, 0, 13, 100, 1, 64];
    let contents: Vec<Vec<u8>> = sizes.iter().enumerate().map(|(i, s)| content(*s, i as u8)).collect();
    let ds: Vec<ArtifactDescriptor> = contents
        .iter()
        .enumerate()
        .map(|(i, c)| file_descriptor(&format!("a{}", i), c, Vec::new()))
        .collect();
    let observed: Vec<LocalState> = ds.iter().map(|_| LocalState::Missing).collect();
    for k in 1..=ds.len() {
        let mut run = SyncRun::start(&ds, &linux(), &observed, k).unwrap();
        drive(&mut run, &ds, &contents);
        assert_eq!(run.outcome(), Ok(()));
        assert_eq!(run.progress().get_total_bytes_downloaded(), 185);
        assert_eq!(run.progress().get_total_files_downloaded(), 6);
    }
}

#[test]
fn limit_bounds_tasks_in_flight() {
    let contents = vec![content(1, 0), content(2, 0), content(3, 0), content(4, 0)];
    let ds: Vec<ArtifactDescriptor> = contents
        .iter()
        .enumerate()
        .map(|(i, c)| file_descriptor(&format!("b{}", i), c, Vec::new()))
        .collect();
    let observed: Vec<LocalState> = ds.iter().map(|_| LocalState::Missing).collect();
    let mut run = SyncRun::start(&ds, &linux(), &observed, 2).unwrap();
    assert_eq!(run.schedule(), Some(0));
    assert_eq!(run.schedule(), Some(1));
    assert_eq!(run.schedule(), None);
}

#[test]
fn second_run_is_idempotent() {
    let contents = vec![content(10, 4), content(20, 5)];
    let mut ds: Vec<ArtifactDescriptor> = contents
        .iter()
        .enumerate()
        .map(|(i, c)| file_descriptor(&format!("g{}", i), c, Vec::new()))
        .collect();
    ds.push(link_descriptor("bin/java", "../lib/java"));
    let observed: Vec<LocalState> = vec![
        LocalState::File { sha1: file_sha1(&contents[0]) },
        LocalState::File { sha1: file_sha1(&contents[1]) },
        LocalState::Present,
    ];
    let tasks = plan(&ds, &linux(), &observed).unwrap();
    assert!(tasks.iter().all(|t| t.decision == Decision::Skip));
    let mut run = SyncRun::start(&ds, &linux(), &observed, 3).unwrap();
    assert_eq!(drive(&mut run, &ds, &contents), 0);
    assert_eq!(run.outcome(), Ok(()));
    assert_eq!(run.progress().get_total_bytes_downloaded(), 0);
    assert_eq!(run.progress().get_total_bytes_to_download(), 0);
}

#[test]
fn corrupted_file_is_fetched_again() {
    let data = content(16, 9);
    let ds = vec![file_descriptor("c.bin", &data, Vec::new())];
    let mut corrupted = data.clone();
    corrupted[3] ^= 0xff;
    let observed = vec![LocalState::File { sha1: file_sha1(&corrupted) }];
    let tasks = plan(&ds, &linux(), &observed).unwrap();
    assert_eq!(tasks[0].decision, Decision::Fetch);
    let mut run = SyncRun::start(&ds, &linux(), &observed, 1).unwrap();
    assert_eq!(drive(&mut run, &ds, &[data.clone()]), 1);
    assert_eq!(run.outcome(), Ok(()));
    assert!(artifact_sync::check_file_hash(&data, &ds[0].source.as_ref().unwrap().sha1));
}

#[test]
fn symlink_is_materialized_then_skipped() {
    let ds = vec![link_descriptor("bin/java", "../lib/java")];
    let first = plan(&ds, &linux(), &vec![LocalState::Missing]).unwrap();
    assert_eq!(first[0].decision, Decision::Materialize);
    let second = plan(&ds, &linux(), &vec![LocalState::Present]).unwrap();
    assert_eq!(second[0].decision, Decision::Skip);
}

#[test]
fn directories_are_always_materialized() {
    let d = ArtifactDescriptor {
        relative_path: "lib".to_string(),
        kind: FileType::Directory,
        source: None,
        symlink_target: None,
        executable: false,
        rules: Vec::new(),
    };
    let tasks = plan(&vec![d], &linux(), &vec![LocalState::Present]).unwrap();
    assert_eq!(tasks[0].decision, Decision::Materialize);
}

#[test]
fn retry_bound_is_five_attempts() {
    let mut s = FetchSession::new(10);
    let mut actions = Vec::new();
    for _ in 0..7 {
        actions.push(s.step(FetchEvent::Responded { ok: false }));
    }
    let retry = FetchAction::Retry { delay_secs: 5, cause: FailureCause::Transport };
    assert_eq!(&actions[..4], &[retry, retry, retry, retry]);
    assert_eq!(actions[4], FetchAction::GiveUp { cause: FailureCause::Transport });
    assert_eq!(&actions[5..], &[FetchAction::Ignore, FetchAction::Ignore]);
    assert_eq!(s.attempts, MAX_ATTEMPTS);
    assert_eq!(s.phase, FetchPhase::Exhausted);
    assert_eq!(RETRY_DELAY_SECS, 5);
}

#[test]
fn exhausted_retries_end_the_run() {
    let data = content(8, 0);
    let ds = vec![file_descriptor("x", &data, Vec::new()), file_descriptor("y", &data, Vec::new())];
    let observed = vec![LocalState::Missing, LocalState::Missing];
    let mut run = SyncRun::start(&ds, &linux(), &observed, 1).unwrap();
    let t = run.schedule().unwrap();
    let mut last = FetchAction::Ignore;
    for _ in 0..5 {
        run.fetch_step(t, FetchEvent::Responded { ok: true });
        run.fetch_step(t, FetchEvent::Chunk { len: 8 });
        run.fetch_step(t, FetchEvent::StreamEnded);
        last = run.fetch_step(t, FetchEvent::Verified { ok: false });
    }
    assert_eq!(last, FetchAction::GiveUp { cause: FailureCause::IntegrityMismatch });
    assert_eq!(run.schedule(), None);
    assert!(run.is_done());
    assert_eq!(run.outcome(), Err(SyncError::RetriesExhausted { index: 0, cause: FailureCause::IntegrityMismatch }));
    assert_eq!(run.progress().get_total_bytes_downloaded(), 0);
}

#[test]
fn oversized_body_fails_the_attempt() {
    let mut s = FetchSession::new(4);
    assert_eq!(s.step(FetchEvent::Responded { ok: true }), FetchAction::ReadBody);
    assert_eq!(s.step(FetchEvent::Chunk { len: 3 }), FetchAction::Write { current: 3, total: 4 });
    assert_eq!(
        s.step(FetchEvent::Chunk { len: 2 }),
        FetchAction::Retry { delay_secs: 5, cause: FailureCause::IntegrityMismatch }
    );
    assert_eq!(s.received, 0);
    assert_eq!(s.attempts, 2);
}

#[test]
fn short_body_fails_the_attempt() {
    let mut s = FetchSession::new(4);
    s.step(FetchEvent::Responded { ok: true });
    s.step(FetchEvent::Chunk { len: 3 });
    assert_eq!(
        s.step(FetchEvent::StreamEnded),
        FetchAction::Retry { delay_secs: 5, cause: FailureCause::IntegrityMismatch }
    );
}

#[test]
fn broken_stream_is_retried_as_transport_failure() {
    let mut s = FetchSession::new(4);
    s.step(FetchEvent::Responded { ok: true });
    assert_eq!(
        s.step(FetchEvent::StreamFailed),
        FetchAction::Retry { delay_secs: 5, cause: FailureCause::Transport }
    );
    assert_eq!(s.phase, FetchPhase::Requesting);
}

#[test]
fn local_failure_aborts_without_retry() {
    let data = content(8, 0);
    let ds = vec![file_descriptor("x", &data, Vec::new())];
    let mut run = SyncRun::start(&ds, &linux(), &vec![LocalState::Missing], 1).unwrap();
    let t = run.schedule().unwrap();
    assert_eq!(run.fetch_step(t, FetchEvent::LocalFailure), FetchAction::Abort);
    assert!(run.is_done());
    assert_eq!(run.outcome(), Err(SyncError::LocalIo { index: 0 }));
}

#[test]
fn failed_materialize_is_local_io_error() {
    let ds = vec![link_descriptor("a", "b"), link_descriptor("c", "d")];
    let observed = vec![LocalState::Missing, LocalState::Missing];
    let mut run = SyncRun::start(&ds, &linux(), &observed, 1).unwrap();
    let t = run.schedule().unwrap();
    run.finish_local(t, false);
    assert_eq!(run.schedule(), None);
    assert!(run.is_done());
    assert_eq!(run.outcome(), Err(SyncError::LocalIo { index: 0 }));
}

#[test]
fn in_flight_tasks_drain_after_failure() {
    let ds = vec![link_descriptor("a", "b"), link_descriptor("c", "d"), link_descriptor("e", "f")];
    let observed = vec![LocalState::Missing, LocalState::Missing, LocalState::Missing];
    let mut run = SyncRun::start(&ds, &linux(), &observed, 2).unwrap();
    let a = run.schedule().unwrap();
    let b = run.schedule().unwrap();
    run.finish_local(a, false);
    assert!(!run.is_done());
    assert_eq!(run.schedule(), None);
    run.finish_local(b, false);
    assert!(run.is_done());
    assert_eq!(run.outcome(), Err(SyncError::LocalIo { index: 0 }));
}

#[test]
fn malformed_descriptor_is_rejected() {
    let data = content(4, 0);
    let mut bad = file_descriptor("bad", &data, Vec::new());
    bad.source.as_mut().unwrap().sha1 = "xyz".to_string();
    let ds = vec![file_descriptor("ok", &data, Vec::new()), bad, link_descriptor("l", "t")];
    let observed = vec![LocalState::Missing, LocalState::Missing, LocalState::Missing];
    assert_eq!(plan(&ds, &linux(), &observed), Err(SyncError::MalformedDescriptor { index: 1 }));
    assert!(matches!(
        SyncRun::start(&ds, &linux(), &observed, 1),
        Err(SyncError::MalformedDescriptor { index: 1 })
    ));
}

#[test]
fn link_without_target_is_malformed() {
    let mut d = link_descriptor("l", "t");
    d.symlink_target = None;
    assert!(!d.is_well_formed());
    assert_eq!(plan(&vec![d], &linux(), &vec![LocalState::Missing]), Err(SyncError::MalformedDescriptor { index: 0 }));
}

#[test]
fn total_size_overflow_is_reported() {
    let data = content(4, 0);
    let mut a = file_descriptor("a", &data, Vec::new());
    let mut b = file_descriptor("b", &data, Vec::new());
    a.source.as_mut().unwrap().size = u64::MAX;
    b.source.as_mut().unwrap().size = 1;
    let observed = vec![LocalState::Missing, LocalState::Missing];
    assert!(matches!(
        SyncRun::start(&vec![a, b], &linux(), &observed, 1),
        Err(SyncError::SizeOverflow)
    ));
}

#[test]
fn cancel_stops_scheduling_and_drains() {
    let ds = vec![link_descriptor("a", "b"), link_descriptor("c", "d"), link_descriptor("e", "f")];
    let observed = vec![LocalState::Missing, LocalState::Missing, LocalState::Missing];
    let mut run = SyncRun::start(&ds, &linux(), &observed, 2).unwrap();
    let a = run.schedule().unwrap();
    run.cancel();
    assert_eq!(run.schedule(), None);
    assert!(!run.is_done());
    run.finish_local(a, true);
    assert!(run.is_done());
    assert_eq!(run.outcome(), Err(SyncError::Cancelled));
}
