use logit::dispatch::{enabled, is_internal_source};
use logit::format::{fmt, fmt_at, fmt_at_instant, fmt_line};
use logit::rotation::today;
use logit::sink::{is_stop, record_message, stop_message};
use logit::writer::needs_flush;
use logit::{
    dated_filename, first_free_suffix, Delivery, init, should_write, Day, Dispatcher, FileAppender,
    FileAppenderCfg, InitError, Level, LevelFilter, LogitCfg, Message, Route, Rotation,
    RotationState, SinkPolicy, TermAppender, TermAppenderCfg,
};

fn names(v: &[&str]) -> Vec<String> {
    v.iter().map(|s| s.to_string()).collect()
}

fn day(year: i32, month: u32, day: u32) -> Day {
    Day { year, month, day }
}

#[test]
fn disabled_ceiling_refuses_everything() {
    assert!(!should_write(&names(&[]), "svc", LevelFilter::Off, Level::Error));
    assert!(!should_write(&names(&["svc"]), "svc", LevelFilter::Off, Level::Error));
}

#[test]
fn more_verbose_than_ceiling_is_refused() {
    assert!(!should_write(&names(&[]), "svc", LevelFilter::Warn, Level::Info));
    assert!(!should_write(&names(&["svc"]), "svc", LevelFilter::Warn, Level::Debug));
    assert!(should_write(&names(&["svc"]), "svc", LevelFilter::Warn, Level::Warn));
    assert!(should_write(&names(&["svc"]), "svc", LevelFilter::Warn, Level::Error));
}

#[test]
fn empty_allow_list_ignores_source() {
    let cx = names(&[]);
    for src in ["a", "b", "", "logit"] {
        assert!(should_write(&cx, src, LevelFilter::Info, Level::Info));
        assert!(!should_write(&cx, src, LevelFilter::Info, Level::Debug));
    }
}

#[test]
fn allow_list_is_exact_membership() {
    let cx = names(&["svc", "db"]);
    assert!(should_write(&cx, "svc", LevelFilter::Trace, Level::Trace));
    assert!(should_write(&cx, "db", LevelFilter::Trace, Level::Info));
    assert!(!should_write(&cx, "sv", LevelFilter::Trace, Level::Info));
    assert!(!should_write(&cx, "svc::inner", LevelFilter::Trace, Level::Info));
    assert!(!should_write(&cx, "SVC", LevelFilter::Trace, Level::Info));
}

#[test]
fn level_names() {
    assert_eq!(Level::Error.as_str(), "ERROR");
    assert_eq!(Level::Warn.as_str(), "WARN");
    assert_eq!(Level::Info.as_str(), "INFO");
    assert_eq!(Level::Debug.as_str(), "DEBUG");
    assert_eq!(Level::Trace.as_str(), "TRACE");
}

#[test]
fn line_layout_pads_source() {
    let line = fmt_at("2024/01/02 03:04:05", "svc", Level::Warn, "x");
    assert_eq!(line, "[2024/01/02 03:04:05] SVC        [WARN] x\n");
}

#[test]
fn line_layout_long_source_unpadded() {
    let line = fmt_line("t", "ABCDEFGHIJKL", Level::Error, "boom");
    assert_eq!(line, "[t] ABCDEFGHIJKL [ERROR] boom\n");
    let line = fmt_line("t", "ABCDEFGHIJ", Level::Info, "");
    assert_eq!(line, "[t] ABCDEFGHIJ [INFO] \n");
}

#[test]
fn same_inputs_format_identically() {
    let a = fmt_at("2024/05/06 07:08:09", "Mixed_Case", Level::Debug, "hello");
    let b = fmt_at("2024/05/06 07:08:09", "Mixed_Case", Level::Debug, "hello");
    assert_eq!(a.as_bytes(), b.as_bytes());
    assert_eq!(a, "[2024/05/06 07:08:09] MIXED_CASE [DEBUG] hello\n");
}

#[test]
fn current_time_line_shape() {
    let line = fmt("svc", Level::Info, "msg", Some("%Y")).unwrap();
    assert!(line.starts_with('['));
    assert!(line.ends_with("] SVC        [INFO] msg\n"));
    assert_eq!(line.len(), "[2024] SVC        [INFO] msg\n".len());
    let line = fmt("svc", Level::Info, "msg", None).unwrap();
    assert_eq!(line.len(), "[2024/01/02 03:04:05] SVC        [INFO] msg\n".len());
}

#[test]
fn dated_file_names() {
    assert_eq!(dated_filename("app", "log", "2024_01_02", None), "app_2024_01_02.log");
    assert_eq!(dated_filename("app", "log", "2024_01_02", Some(3)), "app_2024_01_02-3.log");
    assert_eq!(dated_filename("app", "log", "2024_01_02", Some(12)), "app_2024_01_02-12.log");
    assert_eq!(dated_filename("app", "", "2024_01_02", Some(65535)), "app_2024_01_02-65535.");
}

#[test]
fn today_stamp_shape() {
    let (d, stamp) = today();
    assert!(1 <= d.month && d.month <= 12);
    assert!(1 <= d.day && d.day <= 31);
    assert_eq!(stamp, format!("{:04}_{:02}_{:02}", d.year, d.month, d.day));
}

#[test]
fn first_free_suffix_skips_existing() {
    let taken = |n: u16| n == 1 || n == 2;
    assert_eq!(first_free_suffix(&taken), Some(3));
    let none_taken = |_n: u16| false;
    assert_eq!(first_free_suffix(&none_taken), Some(1));
    let gap = |n: u16| n == 2;
    assert_eq!(first_free_suffix(&gap), Some(1));
}

#[test]
fn first_free_suffix_all_taken() {
    let all = |_n: u16| true;
    assert_eq!(first_free_suffix(&all), None);
}

fn state(rotation_size: Option<u64>) -> RotationState {
    RotationState::new(
        "app".to_string(),
        "log".to_string(),
        None,
        rotation_size,
        day(2024, 1, 2),
        "2024_01_02",
        0,
    )
}

#[test]
fn new_state_opens_dated_file() {
    let s = state(None);
    assert_eq!(s.file_name, "app_2024_01_02.log");
    assert_eq!(s.time_format, "%Y/%m/%d %H:%M:%S");
    assert_eq!(s.current_size, 0);
}

#[test]
fn day_change_rotates_and_resets() {
    let mut s = state(None);
    let none = |_n: u16| false;
    assert_eq!(s.auto_rotate(day(2024, 1, 2), "2024_01_02", &none), Rotation::Kept);
    s.record_written(40);
    assert_eq!(s.file_name, "app_2024_01_02.log");
    assert_eq!(s.current_size, 40);
    assert_eq!(s.auto_rotate(day(2024, 1, 3), "2024_01_03", &none), Rotation::Daily);
    assert_eq!(s.file_name, "app_2024_01_03.log");
    assert_eq!(s.current_size, 0);
    assert_eq!(s.today, day(2024, 1, 3));
    s.record_written(25);
    assert_eq!(s.current_size, 25);
}

#[test]
fn earlier_day_does_not_rotate() {
    let mut s = state(None);
    s.record_written(5);
    let none = |_n: u16| false;
    assert_eq!(s.auto_rotate(day(2023, 12, 31), "2023_12_31", &none), Rotation::Kept);
    assert_eq!(s.file_name, "app_2024_01_02.log");
    assert_eq!(s.current_size, 5);
}

#[test]
fn size_rotation_picks_first_unused_suffix() {
    let mut s = state(Some(100));
    s.record_written(99);
    let taken = |n: u16| n == 1 || n == 2;
    assert_eq!(s.auto_rotate(day(2024, 1, 2), "2024_01_02", &taken), Rotation::Kept);
    s.record_written(1);
    assert_eq!(s.auto_rotate(day(2024, 1, 2), "2024_01_02", &taken), Rotation::BySize(3));
    assert_eq!(s.file_name, "app_2024_01_02-3.log");
    assert_eq!(s.current_size, 0);
    assert_eq!(s.today, day(2024, 1, 2));
}

#[test]
fn size_rotation_without_free_suffix_keeps_file() {
    let mut s = state(Some(10));
    s.record_written(10);
    let all = |_n: u16| true;
    assert_eq!(s.auto_rotate(day(2024, 1, 2), "2024_01_02", &all), Rotation::Kept);
    assert_eq!(s.file_name, "app_2024_01_02.log");
    assert_eq!(s.current_size, 10);
}

#[test]
fn buffer_flush_threshold() {
    assert!(!needs_flush(8191));
    assert!(needs_flush(8192));
    assert!(needs_flush(10000));
}

fn file_cfg(sources: &[&str], verbosity: Option<LevelFilter>) -> FileAppenderCfg {
    FileAppenderCfg {
        sources: names(sources),
        target: "logs/app.log".to_string(),
        time_format: None,
        bytes_rotation_size: None,
        verbosity,
    }
}

#[test]
fn init_refuses_empty_terminal_sources() {
    let cfg = LogitCfg {
        verbosity: LevelFilter::Info,
        file_apdrs: None,
        term_apdrs: Some(vec![
            TermAppenderCfg { sources: names(&["a"]), verbosity: None },
            TermAppenderCfg { sources: names(&[]), verbosity: None },
        ]),
    };
    assert_eq!(init(&cfg).err(), Some(InitError::EmptyTermSources(1)));
}

#[test]
fn init_claims_all_sources() {
    let cfg = LogitCfg {
        verbosity: LevelFilter::Debug,
        file_apdrs: Some(vec![file_cfg(&["a", "b"], None), file_cfg(&["c"], Some(LevelFilter::Error))]),
        term_apdrs: Some(vec![TermAppenderCfg { sources: names(&["d"]), verbosity: None }]),
    };
    let d = init(&cfg).ok().unwrap();
    assert_eq!(d.cx, names(&["a", "b", "c", "d"]));
    assert_eq!(d.sinks.len(), 3);
    assert_eq!(d.sinks[0].verbosity, LevelFilter::Trace);
    assert_eq!(d.sinks[1].verbosity, LevelFilter::Error);
    assert_eq!(d.sinks[2].sources, names(&["d"]));
    assert!(d.default_sink.sources.is_empty());
    assert_eq!(d.max_level, LevelFilter::Debug);
}

#[test]
fn end_to_end_routing() {
    let cfg = LogitCfg {
        verbosity: LevelFilter::Info,
        file_apdrs: Some(vec![file_cfg(&["svc"], Some(LevelFilter::Warn))]),
        term_apdrs: None,
    };
    let d = init(&cfg).ok().unwrap();
    assert!(matches!(d.route("svc", Level::Debug), Route::Dropped));
    match d.route("svc", Level::Warn) {
        Route::Sinks(m) => assert_eq!(m, vec![true]),
        _ => panic!("claimed source must go to the sinks"),
    }
    match d.route("svc", Level::Info) {
        Route::Sinks(m) => assert_eq!(m, vec![false]),
        _ => panic!("claimed source must go to the sinks"),
    }
    assert!(matches!(d.route("other", Level::Warn), Route::Default(true)));
}

#[test]
fn internal_source_goes_to_default() {
    let d = Dispatcher::new(
        LevelFilter::Trace,
        vec![SinkPolicy { sources: names(&["logit", "x"]), verbosity: LevelFilter::Trace }],
    );
    assert!(matches!(d.route("logit", Level::Info), Route::Default(true)));
    assert!(matches!(d.route("x", Level::Info), Route::Sinks(_)));
    assert!(is_internal_source("logit"));
    assert!(!is_internal_source("logit2"));
}

#[test]
fn shared_claim_reaches_every_accepting_sink() {
    let d = Dispatcher::new(
        LevelFilter::Trace,
        vec![
            SinkPolicy { sources: names(&["svc"]), verbosity: LevelFilter::Trace },
            SinkPolicy { sources: names(&[]), verbosity: LevelFilter::Info },
            SinkPolicy { sources: names(&["other"]), verbosity: LevelFilter::Trace },
        ],
    );
    match d.route("svc", Level::Info) {
        Route::Sinks(m) => assert_eq!(m, vec![true, true, false]),
        _ => panic!("claimed source must go to the sinks"),
    }
}

#[test]
fn runtime_source_disabled() {
    assert!(!enabled("async_std::task::builder"));
    assert!(enabled("svc"));
}

#[test]
fn file_sink_queues_in_order_then_stop() {
    let (tx, rx) = crossbeam_channel::unbounded::<Message>();
    let sink = FileAppender::new(names(&["svc"]), Some(LevelFilter::Info), tx);
    assert_eq!(sink.delegate("svc", Level::Info, "first"), Delivery::Queued);
    assert_eq!(sink.delegate("svc", Level::Debug, "too verbose"), Delivery::Refused);
    assert_eq!(sink.delegate("other", Level::Info, "unlisted"), Delivery::Refused);
    assert_eq!(sink.delegate("svc", Level::Error, "second"), Delivery::Queued);
    assert!(sink.flush());
    let mut seen = Vec::new();
    loop {
        let m = rx.recv().unwrap();
        if is_stop(&m) {
            break;
        }
        match m {
            Message::Record { target, level, msg } => seen.push((target, level, msg)),
            Message::Stop => unreachable!(),
        }
    }
    assert_eq!(
        seen,
        vec![
            ("svc".to_string(), Level::Info, "first".to_string()),
            ("svc".to_string(), Level::Error, "second".to_string()),
        ]
    );
}

#[test]
fn file_sink_reports_closed_queue() {
    let (tx, rx) = crossbeam_channel::unbounded::<Message>();
    drop(rx);
    let sink = FileAppender::new(names(&[]), None, tx);
    assert_eq!(sink.delegate("svc", Level::Info, "lost"), Delivery::Closed);
    assert!(!sink.flush());
}

#[test]
fn record_message_fields() {
    match record_message("svc", Level::Warn, "x") {
        Message::Record { target, level, msg } => {
            assert_eq!(target, "svc");
            assert_eq!(level, Level::Warn);
            assert_eq!(msg, "x");
        }
        Message::Stop => panic!("a record is not a stop"),
    }
}

#[test]
fn terminal_sink_renders_accepted_records() {
    let t = TermAppender { cx: names(&["svc"]), verbosity: LevelFilter::Warn };
    assert!(t.delegate("svc", Level::Info, "no").is_none());
    assert!(t.delegate("other", Level::Error, "no").is_none());
    let line = t.delegate("svc", Level::Warn, "yes").unwrap();
    assert!(line.ends_with("] SVC        [WARN] yes\n"));
}

#[test]
fn terminal_sink_construction() {
    assert!(TermAppender::new(names(&[]), None, false).is_none());
    let d = TermAppender::new(names(&[]), None, true).unwrap();
    assert_eq!(d.verbosity, LevelFilter::Trace);
    let t = TermAppender::new(names(&["a"]), Some(LevelFilter::Warn), false).unwrap();
    assert_eq!(t.verbosity, LevelFilter::Warn);
    assert_eq!(t.cx, names(&["a"]));
}

#[test]
fn calendar_order() {
    assert!(day(2024, 1, 3).is_later(&day(2024, 1, 2)));
    assert!(day(2024, 2, 1).is_later(&day(2024, 1, 31)));
    assert!(day(2025, 1, 1).is_later(&day(2024, 12, 31)));
    assert!(!day(2024, 1, 2).is_later(&day(2024, 1, 2)));
    assert!(!day(2023, 12, 31).is_later(&day(2024, 1, 1)));
}

#[test]
fn claimed_sources() {
    let d = Dispatcher::new(
        LevelFilter::Info,
        vec![
            SinkPolicy { sources: names(&["a"]), verbosity: LevelFilter::Off },
            SinkPolicy { sources: names(&[]), verbosity: LevelFilter::Trace },
            SinkPolicy { sources: names(&["b", "c"]), verbosity: LevelFilter::Trace },
        ],
    );
    assert!(d.delegable("a"));
    assert!(d.delegable("c"));
    assert!(!d.delegable("d"));
    match d.route("a", Level::Info) {
        Route::Sinks(m) => assert_eq!(m, vec![false, true, false]),
        _ => panic!("claimed source must go to the sinks"),
    }
}

#[test]
fn level_ranks() {
    assert!(Level::Error.rank() < Level::Warn.rank());
    assert!(Level::Debug.rank() < Level::Trace.rank());
    assert_eq!(LevelFilter::Off.rank(), 0);
    assert!(LevelFilter::Info.admits(Level::Warn));
    assert!(!LevelFilter::Info.admits(Level::Debug));
    assert!(!LevelFilter::Off.admits(Level::Error));
}

#[test]
fn line_at_fixed_instant() {
    // 2024-03-05T07:08:09Z
    let secs: i64 = 1_709_622_489;
    let line = fmt_at_instant(secs, 0, "svc_module", Level::Warn, "x", None).unwrap();
    assert_eq!(line, "[2024/03/05 07:08:09] SVC_MODULE [WARN] x\n");
    let line = fmt_at_instant(secs, 0, "svc_module", Level::Warn, "x", Some("%H:%M")).unwrap();
    assert_eq!(line, "[07:08] SVC_MODULE [WARN] x\n");
    let again = fmt_at_instant(secs, 0, "svc_module", Level::Warn, "x", Some("%H:%M")).unwrap();
    assert_eq!(line.as_bytes(), again.as_bytes());
}

#[test]
fn unusable_time_format_gives_no_line() {
    assert!(fmt_at_instant(1_709_622_489, 0, "svc", Level::Info, "x", Some("%Q")).is_none());
    assert!(fmt("svc", Level::Info, "x", Some("%Q")).is_none());
}

#[test]
fn stop_message_stops() {
    assert!(is_stop(&stop_message()));
    assert!(!is_stop(&record_message("svc", Level::Info, "x")));
}

#[test]
fn terminal_sink_default_format() {
    let t = TermAppender { cx: names(&[]), verbosity: LevelFilter::Trace };
    let line = t.delegate("svc", Level::Trace, "m").unwrap();
    assert_eq!(line.len(), "[2024/01/02 03:04:05] SVC        [TRACE] m\n".len());
    assert_eq!(&line[5..6], "/");
    assert_eq!(&line[8..9], "/");
}
