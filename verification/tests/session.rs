use media_inspector::error::ExtractionError;
use media_inspector::extract::{analyze, analyze_report, Probe};
use media_inspector::filter::{FilterField, FilterPredicate};
use media_inspector::notification::{analysis_message_for, Notification, NOTIFICATION_LIFETIME_MS};
use media_inspector::session::{route, Action, Command, Key, KeyPress, Mode, Session};
use tui_input::InputRequest;

fn press(key: Key) -> KeyPress {
    KeyPress { key, edit: None }
}

fn typed(c: char) -> KeyPress {
    KeyPress { key: Key::Char(c), edit: Some(InputRequest::InsertChar(c)) }
}

fn with_records(n: usize) -> Session {
    let mut s = Session::new();
    for i in 0..n {
        let report = if i % 2 == 0 { "h264" } else { "vp9" };
        s.append(analyze_report(&format!("/m/f{}.mp4", i), report));
    }
    s
}

#[test]
fn new_session_is_empty_and_browsing() {
    let s = Session::new();
    assert_eq!(s.mode(), Mode::Browsing);
    assert_eq!(s.catalogue_len(), 0);
    assert!(s.catalogue().is_empty());
    assert!(s.filters().is_empty());
    assert_eq!(s.cursor(), 0);
    assert_eq!(s.tab(), 0);
    assert_eq!(s.scroll(), 0);
    assert_eq!(s.buffer(), "");
    assert!(s.notification().is_none());
    assert!(s.visible_records().is_empty());
    assert!(s.selected().is_none());
}

#[test]
fn keys_of_browsing() {
    let m = Mode::Browsing;
    assert_eq!(route(m, Key::Char('q')), Command::Quit);
    assert_eq!(route(m, Key::Char('a')), Command::BeginAdd);
    assert_eq!(route(m, Key::Char('r')), Command::ShowRaw);
    assert_eq!(route(m, Key::Char('h')), Command::ShowHelp);
    assert_eq!(route(m, Key::Char('c')), Command::ClearAll);
    assert_eq!(route(m, Key::Char('j')), Command::SelectNext);
    assert_eq!(route(m, Key::Down), Command::SelectNext);
    assert_eq!(route(m, Key::Char('k')), Command::SelectPrevious);
    assert_eq!(route(m, Key::Up), Command::SelectPrevious);
    assert_eq!(route(m, Key::Tab), Command::NextTab);
    assert_eq!(route(m, Key::Char('x')), Command::Ignore);
    assert_eq!(route(m, Key::Char('Q')), Command::Ignore);
    assert_eq!(route(m, Key::Enter), Command::Ignore);
    assert_eq!(route(m, Key::Esc), Command::Ignore);
    assert_eq!(route(m, Key::Other), Command::Ignore);
}

#[test]
fn keys_of_the_other_modes() {
    assert_eq!(route(Mode::AddingFile, Key::Enter), Command::Confirm);
    assert_eq!(route(Mode::AddingFile, Key::Esc), Command::Cancel);
    assert_eq!(route(Mode::AddingFile, Key::Char('q')), Command::Edit);
    assert_eq!(route(Mode::AddingFile, Key::Up), Command::Edit);
    assert_eq!(route(Mode::AddingFile, Key::Tab), Command::Edit);
    assert_eq!(route(Mode::AddingFile, Key::Other), Command::Edit);
    assert_eq!(route(Mode::ViewingRawOutput, Key::Esc), Command::Back);
    assert_eq!(route(Mode::ViewingRawOutput, Key::Up), Command::ScrollUp);
    assert_eq!(route(Mode::ViewingRawOutput, Key::Down), Command::ScrollDown);
    assert_eq!(route(Mode::ViewingRawOutput, Key::Char('q')), Command::Ignore);
    assert_eq!(route(Mode::ViewingRawOutput, Key::Enter), Command::Ignore);
    assert_eq!(route(Mode::ViewingHelp, Key::Esc), Command::Back);
    assert_eq!(route(Mode::ViewingHelp, Key::Char('q')), Command::Ignore);
    assert_eq!(route(Mode::ViewingHelp, Key::Down), Command::Ignore);
}

#[test]
fn quit_only_from_browsing() {
    let mut s = Session::new();
    assert!(matches!(s.handle_key(press(Key::Char('q')), 0), Action::Quit));
    for opener in ['a', 'r', 'h'] {
        let mut s = Session::new();
        assert!(matches!(s.handle_key(press(Key::Char(opener)), 0), Action::Continue));
        assert!(matches!(s.handle_key(typed('q'), 0), Action::Continue));
        assert_ne!(s.mode(), Mode::Browsing);
    }
}

#[test]
fn escape_leads_back_to_browsing() {
    for (opener, mode) in [('a', Mode::AddingFile), ('r', Mode::ViewingRawOutput), ('h', Mode::ViewingHelp)] {
        let mut s = Session::new();
        s.handle_key(press(Key::Char(opener)), 0);
        assert_eq!(s.mode(), mode);
        assert!(matches!(s.handle_key(press(Key::Esc), 0), Action::Continue));
        assert_eq!(s.mode(), Mode::Browsing);
    }
}

#[test]
fn typing_a_path_and_confirming_asks_for_the_analysis() {
    let mut s = Session::new();
    s.handle_key(press(Key::Char('a')), 0);
    assert_eq!(s.mode(), Mode::AddingFile);
    for c in "/a/q.mp4".chars() {
        assert!(matches!(s.handle_key(typed(c), 0), Action::Continue));
    }
    assert_eq!(s.buffer(), "/a/q.mp4");
    assert_eq!(s.input().value(), "/a/q.mp4");
    assert_eq!(s.mode(), Mode::AddingFile);
    match s.handle_key(press(Key::Enter), 0) {
        Action::Analyze(path) => assert_eq!(path, "/a/q.mp4"),
        other => panic!("unexpected action {:?}", other),
    }
    assert_eq!(s.mode(), Mode::Browsing);
    assert_eq!(s.buffer(), "");
    assert_eq!(s.catalogue_len(), 0);
}

#[test]
fn buffer_edits_are_those_of_the_buffer() {
    let mut s = Session::new();
    s.handle_key(press(Key::Char('a')), 0);
    s.handle_key(typed('a'), 0);
    s.handle_key(typed('b'), 0);
    s.handle_key(typed('c'), 0);
    s.handle_key(KeyPress { key: Key::Other, edit: Some(InputRequest::DeletePrevChar) }, 0);
    assert_eq!(s.buffer(), "ab");
    s.handle_key(KeyPress { key: Key::Other, edit: Some(InputRequest::GoToStart) }, 0);
    s.handle_key(typed('x'), 0);
    assert_eq!(s.buffer(), "xab");
    s.handle_key(press(Key::Other), 0);
    s.handle_key(press(Key::Tab), 0);
    s.handle_key(press(Key::Up), 0);
    assert_eq!(s.buffer(), "xab");
    assert_eq!(s.tab(), 0);
    assert_eq!(s.mode(), Mode::AddingFile);
}

#[test]
fn confirming_an_empty_buffer_only_goes_back() {
    let mut s = Session::new();
    s.handle_key(press(Key::Char('a')), 0);
    assert!(matches!(s.handle_key(press(Key::Enter), 0), Action::Continue));
    assert_eq!(s.mode(), Mode::Browsing);
    assert!(s.notification().is_none());
}

#[test]
fn cancel_discards_the_buffer() {
    let mut s = Session::new();
    s.handle_key(press(Key::Char('a')), 0);
    s.handle_key(typed('z'), 0);
    assert!(matches!(s.handle_key(press(Key::Esc), 0), Action::Continue));
    assert_eq!(s.mode(), Mode::Browsing);
    assert_eq!(s.buffer(), "");
    s.handle_key(press(Key::Char('a')), 0);
    assert_eq!(s.buffer(), "");
}

#[test]
fn keys_in_browsing_do_not_reach_the_buffer() {
    let mut s = Session::new();
    s.handle_key(typed('x'), 0);
    s.handle_key(typed('j'), 0);
    assert_eq!(s.buffer(), "");
}

#[test]
fn successful_analysis_appends_and_reports_the_time() {
    let mut s = Session::new();
    let record = analyze_report("/a/q.mp4", "h264 25/1");
    s.finish_analysis(Ok(record), 1234, 50);
    assert_eq!(s.catalogue_len(), 1);
    assert_eq!(s.catalogue()[0].codec, "H.264");
    assert_eq!(s.catalogue()[0].path, "/a/q.mp4");
    assert_eq!(s.mode(), Mode::Browsing);
    assert_eq!(s.status_line(60), "File analyzed in 1.23s");
    let n = s.notification().unwrap();
    assert_eq!(n.created_at, 50);
}

#[test]
fn path_not_found_leaves_the_catalogue_as_it_was() {
    let mut s = with_records(2);
    s.finish_analysis(Err(ExtractionError::PathNotFound), 0, 10);
    assert_eq!(s.catalogue_len(), 2);
    assert_eq!(s.status_line(11), "File does not exist");
    let mut empty = Session::new();
    empty.finish_analysis(Err(ExtractionError::PathNotFound), 0, 10);
    assert_eq!(empty.catalogue_len(), 0);
}

#[test]
fn probe_failure_is_reported_and_the_session_goes_on() {
    let mut s = with_records(1);
    let error = ExtractionError::ProbeInvocationFailure("No such file or directory (os error 2)".to_string());
    s.finish_analysis(Err(error), 3, 10);
    assert_eq!(s.catalogue_len(), 1);
    assert_eq!(s.mode(), Mode::Browsing);
    assert_eq!(s.status_line(11), "Error analyzing file: No such file or directory (os error 2)");
    assert!(matches!(s.handle_key(press(Key::Char('h')), 12), Action::Continue));
    assert_eq!(s.mode(), Mode::ViewingHelp);
}

#[test]
fn error_descriptions() {
    assert_eq!(ExtractionError::PathNotFound.description(), "File does not exist");
    assert_eq!(
        ExtractionError::ProbeInvocationFailure("denied".to_string()).description(),
        "Error analyzing file: denied"
    );
    assert_eq!(
        ExtractionError::ProbeInvocationFailure(String::new()).description(),
        "Error analyzing file: "
    );
}

#[test]
fn same_path_twice_gives_two_records() {
    let mut s = Session::new();
    s.finish_analysis(Ok(analyze_report("/a/q.mp4", "h264")), 1, 1);
    s.finish_analysis(Ok(analyze_report("/a/q.mp4", "h264")), 1, 2);
    assert_eq!(s.catalogue_len(), 2);
    assert_eq!(s.visible_records().len(), 2);
}

#[test]
fn clear_empties_view_and_filters_and_resets_the_cursor() {
    let mut s = with_records(4);
    s.add_filter(FilterPredicate { field: FilterField::Codec, value: "H".to_string() });
    s.handle_key(press(Key::Down), 0);
    assert_eq!(s.cursor(), 1);
    assert!(matches!(s.handle_key(press(Key::Char('c')), 77), Action::Continue));
    assert_eq!(s.mode(), Mode::Browsing);
    assert_eq!(s.catalogue_len(), 0);
    assert!(s.visible_records().is_empty());
    assert!(s.filters().is_empty());
    assert_eq!(s.cursor(), 0);
    assert_eq!(s.notification().unwrap().created_at, 77);
    assert_eq!(s.status_line(78), "All files cleared");
}

#[test]
fn clear_on_an_empty_session() {
    let mut s = Session::new();
    s.clear_all(5);
    assert_eq!(s.catalogue_len(), 0);
    assert!(s.filters().is_empty());
    assert_eq!(s.cursor(), 0);
    assert_eq!(s.status_line(5), "All files cleared");
}

#[test]
fn selection_wraps_forward_and_back() {
    let mut s = with_records(3);
    assert_eq!(s.cursor(), 0);
    s.handle_key(press(Key::Down), 0);
    assert_eq!(s.cursor(), 1);
    s.handle_key(press(Key::Char('j')), 0);
    assert_eq!(s.cursor(), 2);
    s.handle_key(press(Key::Down), 0);
    assert_eq!(s.cursor(), 0);
    s.handle_key(press(Key::Up), 0);
    assert_eq!(s.cursor(), 2);
    s.handle_key(press(Key::Char('k')), 0);
    assert_eq!(s.cursor(), 1);
}

#[test]
fn selection_does_not_move_in_an_empty_view() {
    let mut s = Session::new();
    s.handle_key(press(Key::Down), 0);
    assert_eq!(s.cursor(), 0);
    s.handle_key(press(Key::Up), 0);
    assert_eq!(s.cursor(), 0);
    let mut filtered = with_records(3);
    filtered.handle_key(press(Key::Down), 0);
    filtered.add_filter(FilterPredicate { field: FilterField::Codec, value: "AV1".to_string() });
    filtered.handle_key(press(Key::Down), 0);
    assert_eq!(filtered.cursor(), 1);
    filtered.select_previous();
    assert_eq!(filtered.cursor(), 1);
}

#[test]
fn selection_moves_over_the_filtered_view() {
    let mut s = with_records(5);
    s.add_filter(FilterPredicate { field: FilterField::Codec, value: "VP9".to_string() });
    assert_eq!(s.visible_records().len(), 2);
    s.select_next();
    assert_eq!(s.cursor(), 1);
    assert_eq!(s.selected().unwrap().path, "/m/f3.mp4");
    s.select_next();
    assert_eq!(s.cursor(), 0);
    assert_eq!(s.selected().unwrap().path, "/m/f1.mp4");
    s.select_previous();
    assert_eq!(s.cursor(), 1);
}

#[test]
fn cursor_beyond_the_view_goes_to_the_first_record() {
    let mut s = with_records(5);
    s.select_previous();
    assert_eq!(s.cursor(), 4);
    s.add_filter(FilterPredicate { field: FilterField::Codec, value: "VP9".to_string() });
    assert!(s.selected().is_none());
    assert_eq!(s.raw_report(), "No file selected");
    s.select_next();
    assert_eq!(s.cursor(), 0);
}

#[test]
fn tab_advances_modulo_three() {
    let mut s = Session::new();
    s.handle_key(press(Key::Tab), 0);
    assert_eq!(s.tab(), 1);
    s.handle_key(press(Key::Tab), 0);
    assert_eq!(s.tab(), 2);
    s.handle_key(press(Key::Tab), 0);
    assert_eq!(s.tab(), 0);
}

#[test]
fn raw_output_scrolls_and_starts_at_the_top() {
    let mut s = Session::new();
    s.append(analyze_report("/m/a.mp4", "one\ntwo\nthree\n"));
    s.handle_key(press(Key::Char('r')), 0);
    assert_eq!(s.mode(), Mode::ViewingRawOutput);
    assert_eq!(s.scroll(), 0);
    assert_eq!(s.raw_report(), "one\ntwo\nthree\n");
    assert_eq!(s.raw_report_lines(), vec!["one", "two", "three"]);
    s.handle_key(press(Key::Up), 0);
    assert_eq!(s.scroll(), 0);
    s.handle_key(press(Key::Down), 0);
    s.handle_key(press(Key::Down), 0);
    assert_eq!(s.scroll(), 2);
    assert_eq!(s.raw_report_lines(), vec!["three"]);
    s.handle_key(press(Key::Down), 0);
    s.handle_key(press(Key::Down), 0);
    assert_eq!(s.scroll(), 4);
    assert!(s.raw_report_lines().is_empty());
    s.handle_key(press(Key::Up), 0);
    assert_eq!(s.scroll(), 3);
    s.handle_key(press(Key::Esc), 0);
    assert_eq!(s.scroll(), 3);
    s.handle_key(press(Key::Char('r')), 0);
    assert_eq!(s.scroll(), 0);
}

#[test]
fn raw_output_without_a_selection() {
    let s = Session::new();
    assert_eq!(s.raw_report(), "No file selected");
    assert_eq!(s.raw_report_lines(), vec!["No file selected"]);
}

#[test]
fn status_line_of_each_mode() {
    let mut s = Session::new();
    assert_eq!(s.status_line(0), "Ready - Press 'h' for help");
    s.handle_key(press(Key::Char('a')), 0);
    assert_eq!(s.status_line(0), "Enter file path...");
    s.handle_key(press(Key::Esc), 0);
    s.handle_key(press(Key::Char('r')), 0);
    assert_eq!(s.status_line(0), "Viewing raw output - Press Esc to return");
    s.handle_key(press(Key::Esc), 0);
    s.handle_key(press(Key::Char('h')), 0);
    assert_eq!(s.status_line(0), "Help - Press Esc to return");
}

#[test]
fn notification_is_shown_for_its_lifetime() {
    assert_eq!(NOTIFICATION_LIFETIME_MS, 3000);
    let mut s = Session::new();
    s.notify("hello".to_string(), 1000);
    assert_eq!(s.status_line(1000), "hello");
    assert_eq!(s.status_line(3999), "hello");
    assert!(s.notification().is_some());
    assert_eq!(s.status_line(4000), "Ready - Press 'h' for help");
    assert!(s.notification().is_none());
    assert_eq!(s.status_line(1000), "Ready - Press 'h' for help");
}

#[test]
fn notification_expiry_by_itself() {
    let n = Notification::new("m".to_string(), 500);
    assert_eq!(n.message, "m");
    assert_eq!(n.created_at, 500);
    assert!(!n.is_expired(500));
    assert!(!n.is_expired(3499));
    assert!(n.is_expired(3500));
    assert!(n.is_expired(3501));
    assert!(n.is_expired(u64::MAX));
    assert!(!n.is_expired(0));
    let late = Notification::new("m".to_string(), u64::MAX);
    assert!(!late.is_expired(u64::MAX));
    assert!(!late.is_expired(0));
}

#[test]
fn a_later_notification_replaces_the_earlier() {
    let mut s = Session::new();
    s.notify("first".to_string(), 0);
    s.notify("second".to_string(), 2000);
    assert_eq!(s.status_line(3500), "second");
    assert_eq!(s.status_line(5000), "Ready - Press 'h' for help");
}

#[test]
fn analysis_time_has_two_fractional_digits() {
    assert_eq!(analysis_message_for(0), "File analyzed in 0.00s");
    assert_eq!(analysis_message_for(4), "File analyzed in 0.00s");
    assert_eq!(analysis_message_for(5), "File analyzed in 0.01s");
    assert_eq!(analysis_message_for(1234), "File analyzed in 1.23s");
    assert_eq!(analysis_message_for(1235), "File analyzed in 1.24s");
    assert_eq!(analysis_message_for(995), "File analyzed in 1.00s");
    assert_eq!(analysis_message_for(61_070), "File analyzed in 61.07s");
    assert_eq!(analysis_message_for(u64::MAX), "File analyzed in 18446744073709551.62s");
}

#[test]
fn missing_path_from_key_to_notification() {
    let mut s = with_records(1);
    s.handle_key(press(Key::Char('a')), 0);
    for c in "/no/such".chars() {
        s.handle_key(typed(c), 0);
    }
    let path = match s.handle_key(press(Key::Enter), 0) {
        Action::Analyze(path) => path,
        other => panic!("unexpected action {:?}", other),
    };
    s.finish_analysis(analyze(&path, Probe::Missing), 0, 100);
    assert_eq!(s.catalogue_len(), 1);
    assert_eq!(s.mode(), Mode::Browsing);
    assert_eq!(s.status_line(100), "File does not exist");
    assert_eq!(s.status_line(3100), "Ready - Press 'h' for help");
}

#[test]
fn added_file_from_key_to_record() {
    let mut s = Session::new();
    s.handle_key(press(Key::Char('a')), 0);
    for c in "/v/clip.mp4".chars() {
        s.handle_key(typed(c), 0);
    }
    let path = match s.handle_key(press(Key::Enter), 0) {
        Action::Analyze(path) => path,
        other => panic!("unexpected action {:?}", other),
    };
    let report = "\"h264\"\n\"width\":1920,\"height\":1080\n\"25/1\"\nbit_rate: \"8000000\",\n";
    s.finish_analysis(analyze(&path, Probe::Report(report.to_string())), 250, 300);
    assert_eq!(s.catalogue_len(), 1);
    let record = s.selected().unwrap();
    assert_eq!(record.codec, "H.264");
    assert_eq!(record.resolution, "1920x1080");
    assert_eq!(record.frame_rate, "25");
    assert_eq!(record.bitrate, "8.0");
    assert_eq!(record.path, "/v/clip.mp4");
    assert_eq!(s.status_line(301), "File analyzed in 0.25s");
}
