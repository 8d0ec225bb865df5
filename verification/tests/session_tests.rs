use capture_pipeline::context::ChatRole;
use capture_pipeline::record::Source;
use capture_pipeline::session::Action;
use capture_pipeline::session::Session;
use capture_pipeline::session::StartOutcome;

fn run_one_cycle(s: &mut Session, transcript: &str, response: &str) -> Action {
    assert_eq!(s.begin_cycle(), Action::Capture);
    assert_eq!(s.on_capture(true), Action::Transcribe);
    let (a, _msgs) = s.on_transcription(Some(String::from(transcript)));
    assert_eq!(a, Action::Summarize);
    let (a, records) = s.on_summary(Some(String::from(response)));
    assert_eq!(records.len(), 2);
    a
}

#[test]
fn one_successful_cycle_updates_state_and_log() {
    let mut s = Session::new();
    assert_eq!(s.start(), StartOutcome::Started);

    assert_eq!(s.begin_cycle(), Action::Capture);
    assert_eq!(s.on_capture(true), Action::Transcribe);

    let (a, msgs) = s.on_transcription(Some(String::from("hello there")));
    assert_eq!(a, Action::Summarize);
    assert_eq!(msgs[0].role, ChatRole::System);
    assert_eq!(msgs.len(), 2);
    assert_eq!(msgs[1].role, ChatRole::User);
    assert_eq!(msgs[1].content, "hello there");

    let (a, records) = s.on_summary(Some(String::from("a greeting")));
    assert_eq!(a, Action::Continue);
    assert_eq!(records.len(), 2);
    assert_eq!(records[0].source, Source::Capture);
    assert_eq!(records[0].text, "hello there");
    assert_eq!(records[1].source, Source::Assistant);
    assert_eq!(records[1].text, "a greeting");

    let (transcript, response) = s.read_state();
    assert_eq!(transcript, "hello there");
    assert_eq!(response, "a greeting");

    assert_eq!(s.log_len(), 2);
    assert_eq!(s.log_record(0).source, Source::Capture);
    assert_eq!(s.log_record(0).text, "hello there");
    assert_eq!(s.log_record(1).source, Source::Assistant);
    assert_eq!(s.log_record(1).text, "a greeting");
}

#[test]
fn second_start_reports_already_active() {
    let mut s = Session::new();
    assert_eq!(s.start(), StartOutcome::Started);
    assert_eq!(s.start(), StartOutcome::AlreadyActive);
    assert_eq!(s.start(), StartOutcome::AlreadyActive);
    assert!(s.is_active());
    assert_eq!(s.log_len(), 0);
}

#[test]
fn transcription_failure_keeps_earlier_cycle() {
    let mut s = Session::new();
    assert_eq!(s.start(), StartOutcome::Started);
    assert_eq!(run_one_cycle(&mut s, "cycle one", "reply one"), Action::Continue);

    assert_eq!(s.begin_cycle(), Action::Capture);
    assert_eq!(s.on_capture(true), Action::Transcribe);
    let (a, msgs) = s.on_transcription(None);
    assert_eq!(a, Action::Exit);
    assert!(msgs.is_empty());

    assert_eq!(s.log_len(), 2);
    assert!(s.is_active());
    let (transcript, response) = s.read_state();
    assert_eq!(transcript, "cycle one");
    assert_eq!(response, "reply one");
}

#[test]
fn capture_failure_ends_loop_without_records() {
    let mut s = Session::new();
    assert_eq!(s.start(), StartOutcome::Started);
    assert_eq!(s.begin_cycle(), Action::Capture);
    assert_eq!(s.on_capture(false), Action::Exit);
    assert_eq!(s.log_len(), 0);
    assert!(s.is_active());
}

#[test]
fn summary_failure_keeps_unpaired_user_entry() {
    let mut s = Session::new();
    assert_eq!(s.start(), StartOutcome::Started);
    assert_eq!(s.begin_cycle(), Action::Capture);
    assert_eq!(s.on_capture(true), Action::Transcribe);
    let (a, _msgs) = s.on_transcription(Some(String::from("orphan")));
    assert_eq!(a, Action::Summarize);
    let (a, records) = s.on_summary(None);
    assert_eq!(a, Action::Exit);
    assert!(records.is_empty());
    assert_eq!(s.log_len(), 0);
    let (transcript, response) = s.read_state();
    assert_eq!(transcript, "");
    assert_eq!(response, "");
}

#[test]
fn stop_reads_false_at_once_and_checkpoint_exits() {
    let mut s = Session::new();
    assert_eq!(s.start(), StartOutcome::Started);
    s.stop();
    assert!(!s.is_active());
    assert_eq!(s.begin_cycle(), Action::Exit);
}

#[test]
fn stop_mid_cycle_lets_the_cycle_finish_then_exits() {
    let mut s = Session::new();
    assert_eq!(s.start(), StartOutcome::Started);
    assert_eq!(s.begin_cycle(), Action::Capture);
    assert_eq!(s.on_capture(true), Action::Transcribe);
    s.stop();
    assert!(!s.is_active());
    let (a, _msgs) = s.on_transcription(Some(String::from("last words")));
    assert_eq!(a, Action::Summarize);
    let (a, records) = s.on_summary(Some(String::from("last reply")));
    assert_eq!(a, Action::Exit);
    assert_eq!(records.len(), 2);
    assert_eq!(s.log_len(), 2);
    let (transcript, response) = s.read_state();
    assert_eq!(transcript, "last words");
    assert_eq!(response, "last reply");
}

#[test]
fn restart_after_exit_runs_again() {
    let mut s = Session::new();
    assert_eq!(s.start(), StartOutcome::Started);
    assert_eq!(run_one_cycle(&mut s, "one", "two"), Action::Continue);
    s.stop();
    assert_eq!(s.begin_cycle(), Action::Exit);
    assert_eq!(s.start(), StartOutcome::Started);
    assert_eq!(run_one_cycle(&mut s, "three", "four"), Action::Continue);
    assert_eq!(s.log_len(), 4);
}

#[test]
fn empty_transcript_is_valid_and_proceeds() {
    let mut s = Session::new();
    assert_eq!(s.start(), StartOutcome::Started);
    assert_eq!(s.begin_cycle(), Action::Capture);
    assert_eq!(s.on_capture(true), Action::Transcribe);
    let (a, msgs) = s.on_transcription(Some(String::new()));
    assert_eq!(a, Action::Summarize);
    assert_eq!(msgs.len(), 2);
    assert_eq!(msgs[1].content, "");
}

#[test]
fn context_includes_whole_history_in_order() {
    let mut s = Session::new();
    assert_eq!(s.start(), StartOutcome::Started);
    assert_eq!(run_one_cycle(&mut s, "first chunk", "first reply"), Action::Continue);

    assert_eq!(s.begin_cycle(), Action::Capture);
    assert_eq!(s.on_capture(true), Action::Transcribe);
    let (_a, msgs) = s.on_transcription(Some(String::from("second chunk")));
    assert_eq!(msgs.len(), 4);
    assert_eq!(msgs[0].role, ChatRole::System);
    assert_eq!(msgs[1].role, ChatRole::User);
    assert_eq!(msgs[1].content, "first chunk");
    assert_eq!(msgs[2].role, ChatRole::Assistant);
    assert_eq!(msgs[2].content, "first reply");
    assert_eq!(msgs[3].role, ChatRole::User);
    assert_eq!(msgs[3].content, "second chunk");
}
