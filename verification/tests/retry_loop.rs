use blob_dl::config::{DownloadConfig, Invocation, PathStyle};
use blob_dl::error::{BlobdlError, YtdlpError};
use blob_dl::formats::{MediaSelection, VideoQualityAndFormatPreferences};
use blob_dl::parser::Verbosity;
use blob_dl::classifier::LineDisplay;
use blob_dl::policy::{init_error_msg_lut, ErrorPolicyTable, NETWORK_FAIL, PRIVATE_VIDEO};
use blob_dl::retry::{
    list_retry_options, partition_errors, rebuild_invocations, select_errors, selection_holds,
    start, step, RetryAction, RetryEvent, RetrySettings, RetryState, SELECT_ALL, SELECT_NOTHING,
};

fn config() -> DownloadConfig {
    DownloadConfig::new_playlist(
        "https://youtube.com/playlist?list=PL1",
        "/out".to_string(),
        true,
        VideoQualityAndFormatPreferences::UniqueFormat("22".to_string()),
        MediaSelection::FullVideo,
    )
}

fn settings(verbosity: Verbosity) -> RetrySettings {
    RetrySettings { config: config(), table: init_error_msg_lut(), verbosity, style: PathStyle::Unix }
}

fn lenient_settings() -> RetrySettings {
    RetrySettings {
        config: config(),
        table: ErrorPolicyTable::new(true),
        verbosity: Verbosity::Quiet,
        style: PathStyle::Unix,
    }
}

fn main_run() -> Invocation {
    config().build_command(PathStyle::Unix).unwrap().0
}

fn network_error(id: &str) -> String {
    format!("ERROR: [youtube] {}: {}", id, NETWORK_FAIL)
}

fn private_error(id: &str) -> String {
    format!("ERROR: [youtube] {}: {}", id, PRIVATE_VIDEO)
}

fn errors(lines: &[String]) -> Vec<YtdlpError> {
    lines.iter().map(|l| YtdlpError::from_error_output(l)).collect()
}

fn ids(errors: &[YtdlpError]) -> Vec<String> {
    errors.iter().map(|e| e.video_id().clone()).collect()
}

fn feed(s: &RetrySettings, state: RetryState, lines: &[String]) -> RetryState {
    let mut state = state;
    for line in lines {
        let (next, action) = step(s, state, RetryEvent::Line(line.clone()));
        assert!(matches!(action, RetryAction::Show(_)));
        state = next;
    }
    state
}

fn expected_retry_args(id: &str) -> Vec<String> {
    ["-o", "/out/%(playlist)s/%(playlist_index)s_%(title)s", "-f", "22", "--embed-subs", "--no-playlist", id]
        .iter()
        .map(|s| s.to_string())
        .collect()
}

#[test]
fn errors_are_parted_by_the_policy() {
    let all = errors(&[network_error("a"), private_error("b"), network_error("c"), "ERROR: x".to_string()]);
    let (retry, last) = partition_errors(&all, &init_error_msg_lut());
    assert_eq!(ids(&retry), vec!["a", "c"]);
    assert_eq!(ids(&last), vec!["b", "unavailable"]);
}

#[test]
fn final_failures_are_never_offered() {
    let all = errors(&[private_error("b"), "ERROR: [youtube] z: Video unavailable".to_string()]);
    let (retry, last) = partition_errors(&all, &ErrorPolicyTable::new(true));
    assert_eq!(ids(&retry), vec!["b"]);
    assert_eq!(ids(&last), vec!["z"]);
    let (retry, last) = partition_errors(&all, &init_error_msg_lut());
    assert!(retry.is_empty());
    assert_eq!(ids(&last), vec!["b", "z"]);
}

#[test]
fn options_start_with_all_and_nothing() {
    let candidates = errors(&[network_error("a"), network_error("c")]);
    let options = list_retry_options(&candidates);
    assert_eq!(options.len(), 4);
    assert_eq!(options[0], SELECT_ALL);
    assert_eq!(options[0], "Select all\n");
    assert_eq!(options[1], SELECT_NOTHING);
    assert_eq!(options[1], "Don't re-download anything\n");
    assert_eq!(options[2], format!("yt-video id: a\n   Reason: {}\n", NETWORK_FAIL));
    assert_eq!(options[3], candidates[1].describe());
    assert_eq!(list_retry_options(&Vec::new()), vec![SELECT_ALL, SELECT_NOTHING]);
}

#[test]
fn selection_is_a_set_of_indices() {
    assert!(selection_holds(&vec![3, 0, 2], 0));
    assert!(selection_holds(&vec![3, 0, 2], 2));
    assert!(!selection_holds(&vec![3, 0, 2], 1));
    assert!(!selection_holds(&vec![], 0));
}

#[test]
fn chosen_errors_follow_the_convention() {
    let candidates = errors(&[network_error("a"), network_error("b"), network_error("c")]);
    assert_eq!(ids(&select_errors(&candidates, &vec![0])), vec!["a", "b", "c"]);
    assert_eq!(ids(&select_errors(&candidates, &vec![0, 1, 3])), vec!["a", "b", "c"]);
    assert_eq!(ids(&select_errors(&candidates, &vec![1, 0])), vec!["a", "b", "c"]);
    assert!(select_errors(&candidates, &vec![1]).is_empty());
    assert!(select_errors(&candidates, &vec![1, 2, 4]).is_empty());
    assert!(select_errors(&candidates, &vec![]).is_empty());
    assert_eq!(ids(&select_errors(&candidates, &vec![2])), vec!["a"]);
    assert_eq!(ids(&select_errors(&candidates, &vec![4, 2])), vec!["a", "c"]);
    assert_eq!(ids(&select_errors(&candidates, &vec![3, 3, 3])), vec!["b"]);
    assert_eq!(ids(&select_errors(&candidates, &vec![5, 99, usize::MAX])), Vec::<String>::new());
    assert_eq!(ids(&select_errors(&candidates, &vec![4, usize::MAX])), vec!["c"]);
}

#[test]
fn rebuilt_runs_share_the_preferences() {
    let chosen = errors(&[network_error("a"), network_error("b")]);
    let runs = rebuild_invocations(&config(), &chosen, PathStyle::Unix).unwrap();
    assert_eq!(runs.len(), 2);
    assert_eq!(runs[0].program, "yt-dlp");
    assert_eq!(runs[0].args, expected_retry_args("a"));
    assert_eq!(runs[1].args, expected_retry_args("b"));
}

#[test]
fn rebuilding_needs_a_format_unless_nothing_is_chosen() {
    let mut c = config();
    c.chosen_format = None;
    let chosen = errors(&[network_error("a")]);
    assert_eq!(
        rebuild_invocations(&c, &chosen, PathStyle::Unix).unwrap_err(),
        BlobdlError::FormatPreferenceNotProvided
    );
    assert!(rebuild_invocations(&c, &Vec::new(), PathStyle::Unix).unwrap().is_empty());
}

#[test]
fn start_spawns_the_main_run() {
    let (state, action) = start(main_run());
    match state {
        RetryState::Running { pending, errors } => {
            assert!(pending.is_empty());
            assert!(errors.is_empty());
        }
        _ => panic!("not running"),
    }
    match action {
        RetryAction::Spawn(invocation) => assert_eq!(invocation.args, main_run().args),
        _ => panic!("not spawned"),
    }
}

#[test]
fn run_without_errors_is_done() {
    let s = settings(Verbosity::Default);
    let (state, _) = start(main_run());
    let state = feed(&s, state, &["[download] 100%".to_string(), "chatter".to_string()]);
    let (state, action) = step(&s, state, RetryEvent::Exited);
    assert!(matches!(state, RetryState::Done));
    match action {
        RetryAction::Finish { unrecoverable } => assert!(unrecoverable.is_empty()),
        _ => panic!("not finished"),
    }
}

#[test]
fn lines_are_shown_as_the_verbosity_asks() {
    let s = settings(Verbosity::Default);
    let (state, _) = start(main_run());
    let (state, action) = step(&s, state, RetryEvent::Line("[download] 10%".to_string()));
    match action {
        RetryAction::Show(LineDisplay::Highlighted { rest, .. }) => assert_eq!(rest, " 10%"),
        _ => panic!("not highlighted"),
    }
    let (state, action) = step(&s, state, RetryEvent::Line(network_error("a")));
    assert!(matches!(action, RetryAction::Show(LineDisplay::Failure)));
    let (state, action) = step(&s, state, RetryEvent::Garbled);
    assert!(matches!(action, RetryAction::Show(LineDisplay::Undecodable)));
    match state {
        RetryState::Running { errors, .. } => assert_eq!(ids(&errors), vec!["a"]),
        _ => panic!("not running"),
    }
    let quiet = settings(Verbosity::Quiet);
    let (state, _) = start(main_run());
    let (_, action) = step(&quiet, state, RetryEvent::Garbled);
    assert!(matches!(action, RetryAction::Show(LineDisplay::Hidden)));
}

#[test]
fn only_final_failures_end_the_loop_with_a_report() {
    let s = settings(Verbosity::Quiet);
    let (state, _) = start(main_run());
    let state = feed(&s, state, &[private_error("p"), "ERROR: [youtube] q: new".to_string()]);
    let (state, action) = step(&s, state, RetryEvent::Exited);
    assert!(matches!(state, RetryState::Done));
    match action {
        RetryAction::Finish { unrecoverable } => assert_eq!(ids(&unrecoverable), vec!["p", "q"]),
        _ => panic!("not finished"),
    }
}

#[test]
fn recoverable_failures_are_offered() {
    let s = settings(Verbosity::Quiet);
    let (state, _) = start(main_run());
    let state = feed(&s, state, &[network_error("a"), private_error("p"), network_error("b")]);
    let (state, action) = step(&s, state, RetryEvent::Exited);
    match &state {
        RetryState::AwaitingSelection { candidates } => assert_eq!(ids(candidates), vec!["a", "b"]),
        _ => panic!("not awaiting"),
    }
    match action {
        RetryAction::Prompt { unrecoverable, options } => {
            assert_eq!(ids(&unrecoverable), vec!["p"]);
            assert_eq!(options.len(), 4);
            assert_eq!(options[0], SELECT_ALL);
            assert_eq!(options[1], SELECT_NOTHING);
        }
        _ => panic!("no prompt"),
    }
}

fn awaiting(s: &RetrySettings, n: usize) -> RetryState {
    let (state, _) = start(main_run());
    let lines: Vec<String> = (0..n).map(|i| network_error(&format!("id{}", i))).collect();
    let state = feed(s, state, &lines);
    let (state, _) = step(s, state, RetryEvent::Exited);
    state
}

#[test]
fn select_all_rebuilds_one_run_for_each_candidate() {
    let s = settings(Verbosity::Quiet);
    for n in 1..5usize {
        let state = awaiting(&s, n);
        let (state, action) = step(&s, state, RetryEvent::Selected(vec![0]));
        assert!(matches!(action, RetryAction::Continue));
        match &state {
            RetryState::Rebuilding { chosen } => assert_eq!(chosen.len(), n),
            _ => panic!("not rebuilding"),
        }
        let (state, action) = step(&s, state, RetryEvent::Proceed);
        let mut runs: Vec<Invocation> = Vec::new();
        match action {
            RetryAction::Spawn(first) => runs.push(first),
            _ => panic!("nothing spawned"),
        }
        match state {
            RetryState::Running { pending, errors } => {
                assert!(errors.is_empty());
                runs.extend(pending);
            }
            _ => panic!("not running"),
        }
        assert_eq!(runs.len(), n);
        for (i, run) in runs.iter().enumerate() {
            assert_eq!(run.program, "yt-dlp");
            assert_eq!(run.args, expected_retry_args(&format!("id{}", i)));
        }
    }
}

#[test]
fn select_none_ends_the_loop() {
    let s = settings(Verbosity::Quiet);
    for selection in [vec![1], vec![], vec![1, 2, 3]] {
        let state = awaiting(&s, 3);
        let (state, action) = step(&s, state, RetryEvent::Selected(selection));
        assert!(matches!(action, RetryAction::Continue));
        match &state {
            RetryState::Rebuilding { chosen } => assert!(chosen.is_empty()),
            _ => panic!("not rebuilding"),
        }
        let (state, action) = step(&s, state, RetryEvent::Proceed);
        assert!(matches!(state, RetryState::Done));
        match action {
            RetryAction::Finish { unrecoverable } => assert!(unrecoverable.is_empty()),
            _ => panic!("not finished"),
        }
    }
}

#[test]
fn single_choice_rebuilds_that_item() {
    let s = settings(Verbosity::Quiet);
    let state = awaiting(&s, 3);
    let (state, _) = step(&s, state, RetryEvent::Selected(vec![3]));
    let (state, action) = step(&s, state, RetryEvent::Proceed);
    match action {
        RetryAction::Spawn(run) => assert_eq!(run.args, expected_retry_args("id1")),
        _ => panic!("nothing spawned"),
    }
    match state {
        RetryState::Running { pending, .. } => assert!(pending.is_empty()),
        _ => panic!("not running"),
    }
}

#[test]
fn batch_runs_one_after_the_other_and_asks_again() {
    let s = settings(Verbosity::Quiet);
    let state = awaiting(&s, 2);
    let (state, _) = step(&s, state, RetryEvent::Selected(vec![0]));
    let (state, action) = step(&s, state, RetryEvent::Proceed);
    assert!(matches!(action, RetryAction::Spawn(_)));
    // The first retry fails again, the second goes through.
    let state = feed(&s, state, &[network_error("id0")]);
    let (state, action) = step(&s, state, RetryEvent::Exited);
    match action {
        RetryAction::Spawn(run) => assert_eq!(run.args, expected_retry_args("id1")),
        _ => panic!("second run not spawned"),
    }
    let (state, action) = step(&s, state, RetryEvent::Exited);
    match &state {
        RetryState::AwaitingSelection { candidates } => assert_eq!(ids(candidates), vec!["id0"]),
        _ => panic!("not awaiting"),
    }
    assert!(matches!(action, RetryAction::Prompt { .. }));
    // This time the operator gives up.
    let (state, _) = step(&s, state, RetryEvent::Selected(vec![1]));
    let (state, action) = step(&s, state, RetryEvent::Proceed);
    assert!(matches!(state, RetryState::Done));
    assert!(matches!(action, RetryAction::Finish { .. }));
}

#[test]
fn retries_that_succeed_end_the_loop() {
    let s = lenient_settings();
    let (state, _) = start(main_run());
    let state = feed(&s, state, &["ERROR: [youtube] x: flaky".to_string()]);
    let (state, _) = step(&s, state, RetryEvent::Exited);
    let (state, _) = step(&s, state, RetryEvent::Selected(vec![2]));
    let (state, _) = step(&s, state, RetryEvent::Proceed);
    let (state, action) = step(&s, state, RetryEvent::Exited);
    assert!(matches!(state, RetryState::Done));
    match action {
        RetryAction::Finish { unrecoverable } => assert!(unrecoverable.is_empty()),
        _ => panic!("not finished"),
    }
}

#[test]
fn spawn_failure_is_fatal() {
    let s = settings(Verbosity::Quiet);
    let (state, _) = start(main_run());
    let (state, action) = step(&s, state, RetryEvent::SpawnFailed("No such file".to_string()));
    assert!(matches!(state, RetryState::Done));
    match action {
        RetryAction::Abort(e) => assert_eq!(e, BlobdlError::IoError("No such file".to_string())),
        _ => panic!("not aborted"),
    }
}

#[test]
fn missing_format_aborts_the_rebuild() {
    let mut s = settings(Verbosity::Quiet);
    s.config.chosen_format = None;
    let state = awaiting(&s, 1);
    let (state, _) = step(&s, state, RetryEvent::Selected(vec![0]));
    let (state, action) = step(&s, state, RetryEvent::Proceed);
    assert!(matches!(state, RetryState::Done));
    match action {
        RetryAction::Abort(e) => assert_eq!(e, BlobdlError::FormatPreferenceNotProvided),
        _ => panic!("not aborted"),
    }
}

#[test]
fn unexpected_events_end_the_loop() {
    let s = settings(Verbosity::Quiet);
    let (state, _) = start(main_run());
    let (state, action) = step(&s, state, RetryEvent::Selected(vec![0]));
    assert!(matches!(state, RetryState::Done));
    assert!(matches!(action, RetryAction::Abort(BlobdlError::UnknownIssue)));
    let state = awaiting(&s, 1);
    let (state, action) = step(&s, state, RetryEvent::Exited);
    assert!(matches!(state, RetryState::Done));
    assert!(matches!(action, RetryAction::Abort(BlobdlError::UnknownIssue)));
    let state = awaiting(&s, 1);
    let (state, _) = step(&s, state, RetryEvent::Selected(vec![0]));
    let (state, action) = step(&s, state, RetryEvent::Line("x".to_string()));
    assert!(matches!(state, RetryState::Done));
    assert!(matches!(action, RetryAction::Abort(BlobdlError::UnknownIssue)));
}

#[test]
fn done_stays_done() {
    let s = settings(Verbosity::Quiet);
    for event in [RetryEvent::Exited, RetryEvent::Proceed, RetryEvent::Line("ERROR: x".to_string())] {
        let (state, action) = step(&s, RetryState::Done, event);
        assert!(matches!(state, RetryState::Done));
        match action {
            RetryAction::Finish { unrecoverable } => assert!(unrecoverable.is_empty()),
            _ => panic!("not finished"),
        }
    }
}
