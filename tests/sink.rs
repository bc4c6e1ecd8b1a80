use plc_logger::layout::{archive_path, ACTIVE_LOG_PATH, ARCHIVE_DIR};
use plc_logger::packet::{decode_payload, handle_datagram, handle_received, DecodeError, MAX_DATAGRAM_LEN};
use plc_logger::settings::{app_config, validate_config, AppConfig, RangeError, SettingsError};
use plc_logger::writer::{render, Level, RotatingWriter, RotationPlan, Template, ARCHIVE_BASE};

fn settings_of(port: i64, size_mb: i64, keep: i64) -> AppConfig {
    validate_config(port, size_mb, keep).unwrap()
}

#[test]
fn accepts_values_in_range() {
    let c = settings_of(9999, 1, 2);
    assert_eq!(c.listening_port, 9999);
    assert_eq!(c.log_max_size_mb, 1);
    assert_eq!(c.log_history_to_keep, 2);
    let lo = settings_of(0, 1, 0);
    assert_eq!(lo.listening_port, 0);
    assert_eq!(lo.log_history_to_keep, 0);
    let hi = settings_of(65535, 100, 1000);
    assert_eq!(hi.listening_port, 65535);
    assert_eq!(hi.log_max_size_mb, 100);
    assert_eq!(hi.log_history_to_keep, 1000);
}

#[test]
fn rejects_port_out_of_range() {
    assert_eq!(validate_config(-1, 1, 2).err(), Some(RangeError::ListeningPort));
    assert_eq!(validate_config(65536, 1, 2).err(), Some(RangeError::ListeningPort));
}

#[test]
fn rejects_size_out_of_range() {
    assert_eq!(validate_config(9999, 0, 2).err(), Some(RangeError::LogMaxSize));
    assert_eq!(validate_config(9999, 101, 2).err(), Some(RangeError::LogMaxSize));
}

#[test]
fn rejects_history_out_of_range() {
    assert_eq!(validate_config(9999, 1, -1).err(), Some(RangeError::LogHistory));
    assert_eq!(validate_config(9999, 1, 1001).err(), Some(RangeError::LogHistory));
}

#[test]
fn reports_port_before_other_violations() {
    assert_eq!(validate_config(70000, 0, 5000).err(), Some(RangeError::ListeningPort));
    assert_eq!(validate_config(80, 0, 5000).err(), Some(RangeError::LogMaxSize));
}

#[test]
fn range_messages() {
    assert_eq!(RangeError::ListeningPort.message(), "listening port must be between 0 - 65535");
    assert_eq!(RangeError::LogMaxSize.message(), "max log size must be between 1 - 100 (mb)");
    assert_eq!(RangeError::LogHistory.message(), "log history must be between 0 - 1000");
}

#[test]
fn reads_settings_from_loaded_sources() {
    let cfg = config::Config::builder()
        .set_override("listening_port", 9999i64)
        .unwrap()
        .set_override("log_max_size_mb", 5i64)
        .unwrap()
        .set_override("log_history_to_keep", 3i64)
        .unwrap()
        .build()
        .unwrap();
    let c = match app_config(&cfg) {
        Ok(c) => c,
        Err(_) => panic!("settings rejected"),
    };
    assert_eq!(c.listening_port, 9999);
    assert_eq!(c.log_max_size_mb, 5);
    assert_eq!(c.log_history_to_keep, 3);
}

#[test]
fn missing_key_is_a_source_error() {
    let cfg = config::Config::builder()
        .set_override("listening_port", 9999i64)
        .unwrap()
        .set_override("log_max_size_mb", 5i64)
        .unwrap()
        .build()
        .unwrap();
    assert!(matches!(app_config(&cfg), Err(SettingsError::Source(_))));
}

#[test]
fn out_of_range_key_is_a_range_error() {
    let cfg = config::Config::builder()
        .set_override("listening_port", 9999i64)
        .unwrap()
        .set_override("log_max_size_mb", 500i64)
        .unwrap()
        .set_override("log_history_to_keep", 3i64)
        .unwrap()
        .build()
        .unwrap();
    assert!(matches!(app_config(&cfg), Err(SettingsError::Range(RangeError::LogMaxSize))));
}

#[test]
fn trigger_is_size_in_megabytes() {
    assert_eq!(settings_of(9999, 1, 2).trigger_bytes(), 1_000_000);
    assert_eq!(settings_of(9999, 100, 2).trigger_bytes(), 100_000_000);
    assert_eq!(settings_of(9999, 7, 2).trigger_bytes(), 7_000_000);
}

#[test]
fn decodes_utf8_payload() {
    assert_eq!(decode_payload(b"temp=21.5"), Ok(String::from("temp=21.5")));
    assert_eq!(decode_payload("température".as_bytes()), Ok(String::from("température")));
    assert_eq!(decode_payload(b""), Ok(String::new()));
}

#[test]
fn rejects_non_utf8_payload() {
    assert_eq!(decode_payload(&[0xff, 0xfe, 0x41]), Err(DecodeError::InvalidUtf8));
    // a multi-byte character cut short
    assert_eq!(decode_payload(&[0x74, 0xc3]), Err(DecodeError::InvalidUtf8));
}

#[test]
fn handler_pairs_text_with_source() {
    let m = match handle_datagram(b"temp=22.0", String::from("127.0.0.1:5000")) {
        Ok(m) => m,
        Err(_) => panic!("valid payload discarded"),
    };
    assert_eq!(m.text, "temp=22.0");
    assert_eq!(m.source, "127.0.0.1:5000");
    assert!(handle_datagram(&[0xc0, 0x80], String::from("127.0.0.1:5000")).is_err());
}

#[test]
fn handler_takes_received_prefix_only() {
    let mut buf = [0u8; MAX_DATAGRAM_LEN];
    buf[..5].copy_from_slice(b"hello");
    buf[5] = 0xff;
    let m = match handle_received(&buf, 5, String::from("10.0.0.2:7")) {
        Ok(m) => m,
        Err(_) => panic!("valid prefix discarded"),
    };
    assert_eq!(m.text, "hello");
    assert!(handle_received(&buf, 6, String::from("10.0.0.2:7")).is_err());
    let full = vec![b'a'; MAX_DATAGRAM_LEN];
    let m = match handle_received(&full, MAX_DATAGRAM_LEN, String::from("10.0.0.2:7")) {
        Ok(m) => m,
        Err(_) => panic!("full datagram discarded"),
    };
    assert_eq!(m.text.len(), 1500);
}

#[test]
fn renders_passthrough_and_diagnostic_lines() {
    assert_eq!(render(Template::Passthrough, Level::Info, "2024-05-01 10:00:00.000001", "temp=21.5"), "temp=21.5\n");
    assert_eq!(
        render(Template::Diagnostic, Level::Info, "2024-05-01 10:00:00.000001", "Starting"),
        "2024-05-01 10:00:00.000001 | INFO  | Starting\n"
    );
    assert_eq!(render(Template::Diagnostic, Level::Error, "t", "boom"), "t | ERROR | boom\n");
    assert_eq!(Level::Warn.label(), "WARN ");
}

#[test]
fn round_trip_keeps_text_in_line() {
    let sent = "pump 3: ΔP=0.4 bar";
    let m = match handle_datagram(sent.as_bytes(), String::from("192.168.1.9:1024")) {
        Ok(m) => m,
        Err(_) => panic!("utf-8 payload discarded"),
    };
    let raw = render(Template::Passthrough, Level::Info, "s", &m.text);
    assert_eq!(raw, format!("{sent}\n"));
    let decorated = render(Template::Diagnostic, Level::Info, "s", &m.text);
    assert!(decorated.contains(sent));
    assert!(decorated.ends_with(&format!("{sent}\n")));
}

#[test]
fn fresh_writer_is_empty() {
    let w = RotatingWriter::new(&settings_of(9999, 1, 2), Template::Passthrough);
    assert_eq!(w.written(), 0);
    assert_eq!(w.archived(), 0);
    assert_eq!(w.template(), Template::Passthrough);
}

#[test]
fn append_below_trigger_counts_bytes() {
    let mut w = RotatingWriter::new(&settings_of(9999, 1, 2), Template::Passthrough);
    assert_eq!(w.append(10), None);
    assert_eq!(w.append(999_989), None);
    assert_eq!(w.written(), 999_999);
    assert_eq!(w.archived(), 0);
}

#[test]
fn reaching_trigger_rotates_once() {
    let mut w = RotatingWriter::new(&settings_of(9999, 1, 2), Template::Passthrough);
    assert_eq!(w.append(999_999), None);
    let plan = w.append(1);
    assert_eq!(plan, Some(RotationPlan { evict: None, shift: 0, archive: true }));
    assert_eq!(w.written(), 0);
    assert_eq!(w.archived(), 1);
    assert_eq!(w.append(5), None);
    assert_eq!(w.written(), 5);
}

#[test]
fn single_append_past_trigger_rotates_once() {
    let mut w = RotatingWriter::new(&settings_of(9999, 1, 2), Template::Passthrough);
    assert!(w.append(5_000_000).is_some());
    assert_eq!(w.written(), 0);
    assert_eq!(w.archived(), 1);
}

#[test]
fn retention_keeps_window_of_archives() {
    let mut w = RotatingWriter::new(&settings_of(9999, 1, 2), Template::Passthrough);
    assert_eq!(w.append(1_000_000), Some(RotationPlan { evict: None, shift: 0, archive: true }));
    assert_eq!(w.archived(), 1);
    assert_eq!(w.append(1_000_000), Some(RotationPlan { evict: None, shift: 1, archive: true }));
    assert_eq!(w.archived(), 2);
    assert_eq!(w.append(1_000_000), Some(RotationPlan { evict: Some(2), shift: 1, archive: true }));
    assert_eq!(w.archived(), 2);
    assert_eq!(w.append(1_000_000), Some(RotationPlan { evict: Some(2), shift: 1, archive: true }));
    assert_eq!(w.archived(), 2);
    assert_eq!(ARCHIVE_BASE, 1);
}

#[test]
fn zero_retention_discards_rotated_file() {
    let mut w = RotatingWriter::new(&settings_of(9999, 1, 0), Template::Passthrough);
    assert_eq!(w.append(1_000_000), Some(RotationPlan { evict: None, shift: 0, archive: false }));
    assert_eq!(w.archived(), 0);
    assert_eq!(w.written(), 0);
}

#[test]
fn single_archive_window() {
    let mut w = RotatingWriter::new(&settings_of(9999, 1, 1), Template::Passthrough);
    assert_eq!(w.append(1_000_000), Some(RotationPlan { evict: None, shift: 0, archive: true }));
    assert_eq!(w.append(1_000_000), Some(RotationPlan { evict: Some(1), shift: 0, archive: true }));
    assert_eq!(w.archived(), 1);
}

#[test]
fn reconfigure_twice_matches_once() {
    let cfg = settings_of(9999, 1, 2);
    let mut once = RotatingWriter::new(&cfg, Template::Diagnostic);
    let mut twice = RotatingWriter::new(&cfg, Template::Diagnostic);
    once.append(42);
    twice.append(42);
    once.reconfigure(Template::Passthrough);
    twice.reconfigure(Template::Passthrough);
    twice.reconfigure(Template::Passthrough);
    let a = once.write_entry(Level::Info, "s", "temp=21.5");
    let b = twice.write_entry(Level::Info, "s", "temp=21.5");
    assert_eq!(a.line, b.line);
    assert_eq!(a.line, "temp=21.5\n");
    assert_eq!(once.written(), twice.written());
    assert_eq!(once.written(), 52);
}

#[test]
fn reconfigure_keeps_active_file() {
    let mut w = RotatingWriter::new(&settings_of(9999, 1, 2), Template::Diagnostic);
    w.append(100);
    w.reconfigure(Template::Passthrough);
    assert_eq!(w.written(), 100);
    assert_eq!(w.archived(), 0);
    assert_eq!(w.template(), Template::Passthrough);
}

#[test]
fn entry_counts_utf8_bytes() {
    let mut w = RotatingWriter::new(&settings_of(9999, 1, 2), Template::Passthrough);
    let e = w.write_entry(Level::Info, "s", "é");
    assert_eq!(e.line, "é\n");
    assert_eq!(e.rotation, None);
    assert_eq!(w.written(), 3);
}

#[test]
fn two_datagrams_append_two_lines_without_rotation() {
    let cfg = settings_of(9999, 1, 2);
    let mut w = RotatingWriter::new(&cfg, Template::Passthrough);
    let mut lines = Vec::new();
    for sent in ["temp=21.5", "temp=22.0"] {
        let m = match handle_datagram(sent.as_bytes(), String::from("127.0.0.1:40000")) {
            Ok(m) => m,
            Err(_) => panic!("datagram discarded"),
        };
        let e = w.write_entry(Level::Info, "s", &m.text);
        assert_eq!(e.rotation, None);
        assert!(e.line.contains(sent));
        lines.push(e.line);
    }
    assert_eq!(lines, vec!["temp=21.5\n", "temp=22.0\n"]);
    assert_eq!(w.written(), 20);
    assert_eq!(w.archived(), 0);
}

#[test]
fn malformed_datagram_produces_no_line() {
    let mut w = RotatingWriter::new(&settings_of(9999, 1, 2), Template::Passthrough);
    let mut lines = Vec::new();
    let datagrams: [&[u8]; 2] = [&[0x80, 0x81, 0x82], b"next"];
    for d in datagrams {
        if let Ok(m) = handle_datagram(d, String::from("127.0.0.1:1")) {
            lines.push(w.write_entry(Level::Info, "s", &m.text).line);
        }
    }
    assert_eq!(lines, vec!["next\n"]);
    assert_eq!(w.written(), 5);
}

#[test]
fn archive_names_carry_decimal_index() {
    assert_eq!(archive_path(1), "history/plclog_1.gz");
    assert_eq!(archive_path(0), "history/plclog_0.gz");
    assert_eq!(archive_path(10), "history/plclog_10.gz");
    assert_eq!(archive_path(1000), "history/plclog_1000.gz");
    assert_eq!(archive_path(4294967295), "history/plclog_4294967295.gz");
    assert!(archive_path(7).starts_with(ARCHIVE_DIR));
    assert_eq!(ACTIVE_LOG_PATH, "plc.log");
}

#[test]
fn resume_counts_existing_content() {
    let (mut w, plan) = RotatingWriter::resume(&settings_of(9999, 1, 2), Template::Passthrough, 400, 1);
    assert_eq!(plan, None);
    assert_eq!(w.written(), 400);
    assert_eq!(w.archived(), 1);
    assert_eq!(w.append(999_600), Some(RotationPlan { evict: None, shift: 1, archive: true }));
    assert_eq!(w.archived(), 2);
}

#[test]
fn resume_caps_archives_at_retention() {
    let (w, plan) = RotatingWriter::resume(&settings_of(9999, 1, 2), Template::Passthrough, 0, 7);
    assert_eq!(plan, None);
    assert_eq!(w.archived(), 2);
    let (z, _) = RotatingWriter::resume(&settings_of(9999, 1, 0), Template::Passthrough, 0, 3);
    assert_eq!(z.archived(), 0);
}

#[test]
fn resume_rotates_full_active_file() {
    let (w, plan) = RotatingWriter::resume(&settings_of(9999, 1, 2), Template::Passthrough, 1_000_000, 2);
    assert_eq!(plan, Some(RotationPlan { evict: Some(2), shift: 1, archive: true }));
    assert_eq!(w.written(), 0);
    assert_eq!(w.archived(), 2);
}

#[test]
fn non_integer_key_is_a_source_error() {
    let cfg = config::Config::builder()
        .set_override("listening_port", "not a port")
        .unwrap()
        .set_override("log_max_size_mb", 5i64)
        .unwrap()
        .set_override("log_history_to_keep", 3i64)
        .unwrap()
        .build()
        .unwrap();
    assert!(matches!(app_config(&cfg), Err(SettingsError::Source(_))));
}
