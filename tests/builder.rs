use clip_job::codec::{encode_codec, lookup_codec, CodecEntry};
use clip_job::command::{command_text, ffmpeg_code_maker, ffmpeg_code_maker_at, ffmpeg_command_maker, scale_filter};
use clip_job::error::{io_error_maker, ErrorKind};
use clip_job::path::{file_parent_dir, file_stem, format_stamp, full_path_from_reading, full_path_maker, output_path_at, stamped_filename, timestamp_filename, timestamp_filename_at, timestamp_filename_from_reading, ClockTime};
use clip_job::process::{combine_command, combine_unix_command, combine_windows_command, Platform, CREATE_NO_WINDOW};

const TABLE: &str = r#"{"video": [{"key": "h264", "codec": "-c:v libx264"}, {"key": "h265", "codec": "-c:v libx265"}]}"#;

fn clock(year: i32, month: u32, day: u32, hour: u32, minute: u32, second: u32) -> ClockTime {
    ClockTime { year, month, day, hour, minute, second }
}

const T0: ClockTime = ClockTime { year: 2024, month: 1, day: 2, hour: 3, minute: 4, second: 5 };

fn is_stamp(s: &str) -> bool {
    let b = s.as_bytes();
    b.len() == 15 && b[8] == b'_' && b.iter().enumerate().all(|(i, c)| i == 8 || c.is_ascii_digit())
}

#[test]
fn error_maker_keeps_kind_and_message() {
    let e = io_error_maker(ErrorKind::NotFound, "gone");
    assert_eq!(e.kind, ErrorKind::NotFound);
    assert_eq!(e.message, "gone");
    assert_eq!(e.describe(), format!("{:?}", std::io::Error::new(std::io::ErrorKind::NotFound, "gone")));
    assert_eq!(e.describe(), "Custom { kind: NotFound, error: \"gone\" }");
}

#[test]
fn parent_and_stem_of_a_path() {
    assert_eq!(file_parent_dir("/tmp/a.mp4"), Some("/tmp".to_string()));
    assert_eq!(file_stem("/tmp/a.mp4"), Some("a".to_string()));
    assert_eq!(file_stem("/tmp/clip.tar.gz"), Some("clip.tar".to_string()));
    assert_eq!(file_parent_dir(""), None);
    assert_eq!(file_parent_dir("/"), None);
    assert_eq!(file_stem(""), None);
}

#[test]
fn stamped_filename_layout() {
    assert_eq!(stamped_filename("a", "mkv", "20240102_030405"), "a_20240102_030405.mkv");
    let name = timestamp_filename("output", "mp4").unwrap();
    assert!(name.starts_with("output_"));
    assert!(name.ends_with(".mp4"));
    assert!(is_stamp(&name["output_".len()..name.len() - ".mp4".len()]));
}

#[test]
fn stamp_from_clock() {
    assert_eq!(format_stamp(&clock(2026, 10, 19, 13, 5, 9)), "20261019_130509");
    assert_eq!(format_stamp(&clock(5, 1, 1, 0, 0, 0)), "00050101_000000");
    assert_eq!(format_stamp(&clock(9999, 12, 31, 23, 59, 59)), "99991231_235959");
    assert_eq!(timestamp_filename_at("a", "mp4", &clock(2026, 10, 19, 13, 5, 9)), "a_20261019_130509.mp4");
}

#[test]
fn stamp_from_clock_reading() {
    let t = clock(2026, 10, 19, 13, 5, 9);
    assert_eq!(timestamp_filename_from_reading("a", "mp4", Some(t)), Some("a_20261019_130509.mp4".to_string()));
    assert_eq!(timestamp_filename_from_reading("a", "mp4", None), None);
    assert_eq!(timestamp_filename_from_reading("a", "mp4", Some(clock(10000, 1, 1, 0, 0, 0))), None);
    assert_eq!(timestamp_filename_from_reading("a", "mp4", Some(clock(2026, 13, 1, 0, 0, 0))), None);
}

#[test]
fn full_path_from_clock_reading() {
    let t = clock(2026, 10, 19, 13, 5, 9);
    assert_eq!(full_path_from_reading("/tmp/a.mp4", "mp4", Some(t)).unwrap(), "/tmp/a_20261019_130509.mp4");
    assert_eq!(full_path_from_reading("/tmp/..", "mkv", Some(t)).unwrap(), "/tmp/output_20261019_130509.mkv");
    let e = full_path_from_reading("/tmp/a.mp4", "mp4", None).unwrap_err();
    assert_eq!(e.kind, ErrorKind::ClockFailure);
    assert_eq!(e.message, "無法讀取系統時間");
    let e = full_path_from_reading("", "mp4", None).unwrap_err();
    assert_eq!(e.kind, ErrorKind::NotFound);
    let e = full_path_from_reading("/tmp/a.mp4", "mp4", Some(clock(-1, 1, 1, 0, 0, 0))).unwrap_err();
    assert_eq!(e.kind, ErrorKind::ClockFailure);
}

#[test]
fn output_path_beside_input() {
    assert_eq!(output_path_at("/tmp/a.mp4", "mp4", &T0).unwrap(), "/tmp/a_20240102_030405.mp4");
    assert_eq!(output_path_at("a.mp4", "mkv", &T0).unwrap(), "a_20240102_030405.mkv");
}

#[test]
fn output_path_without_stem_uses_output() {
    assert_eq!(output_path_at("/tmp/..", "mkv", &T0).unwrap(), "/tmp/output_20240102_030405.mkv");
    let p = full_path_maker("/tmp/..", "mkv").unwrap();
    assert!(p.starts_with("/tmp/output_"));
    assert!(is_stamp(&p["/tmp/output_".len()..p.len() - 4]));
}

#[test]
fn output_path_without_parent_is_not_found() {
    let e = output_path_at("", "mp4", &T0).unwrap_err();
    assert_eq!(e.kind, ErrorKind::NotFound);
    assert_eq!(e.message, "無法取得父目錄: ");
    let e = full_path_maker("/", "mp4").unwrap_err();
    assert_eq!(e.kind, ErrorKind::NotFound);
}

#[test]
fn full_path_is_stamped_now() {
    let p = full_path_maker("/tmp/a.mp4", "mp4").unwrap();
    assert!(p.starts_with("/tmp/a_"));
    assert!(p.ends_with(".mp4"));
    assert!(is_stamp(&p["/tmp/a_".len()..p.len() - 4]));
}

#[test]
fn codec_lookup_in_table() {
    assert_eq!(encode_codec(Some(TABLE), "h265"), Some("-c:v libx265".to_string()));
    assert_eq!(encode_codec(Some(TABLE), "vp9"), None);
    assert_eq!(encode_codec(None, "h264"), None);
    assert_eq!(encode_codec(Some("not json"), "h264"), None);
    assert_eq!(encode_codec(Some(r#"{"audio": []}"#), "h264"), None);
    assert_eq!(encode_codec(Some(r#"{"video": {"key": "h264"}}"#), "h264"), None);
}

#[test]
fn codec_lookup_stops_at_item_without_key() {
    let t = r#"{"video": [{"codec": "x"}, {"key": "h264", "codec": "-c:v libx264"}]}"#;
    assert_eq!(encode_codec(Some(t), "h264"), None);
    let t = r#"{"video": [{"key": "h264"}, {"key": "h264", "codec": "y"}]}"#;
    assert_eq!(encode_codec(Some(t), "h264"), None);
    let t = r#"{"video": [{"key": "a", "codec": "1"}, {"key": "a", "codec": "2"}]}"#;
    assert_eq!(encode_codec(Some(t), "a"), Some("1".to_string()));
}

#[test]
fn lookup_codec_on_entries() {
    let entries = vec![
        CodecEntry { key: Some("copy".to_string()), codec: Some("-c copy".to_string()) },
        CodecEntry { key: Some("h264".to_string()), codec: Some("-c:v libx264".to_string()) },
    ];
    assert_eq!(lookup_codec(&entries, "h264"), Some("-c:v libx264".to_string()));
    assert_eq!(lookup_codec(&entries, "av1"), None);
    assert_eq!(lookup_codec(&Vec::new(), "h264"), None);
}

#[test]
fn scale_fragment_only_when_given() {
    assert_eq!(scale_filter(""), "");
    assert_eq!(scale_filter("320:240"), "-vf scale=\"320:240\"");
}

#[test]
fn command_text_layout() {
    let t = command_text("ffmpeg", "1", "2", "/in.mp4", "-c copy", "640:480", "/out.mp4");
    assert_eq!(t, "ffmpeg -ss 1 -to 2 -i \"/in.mp4\" -c copy -vf scale=\"640:480\" \"/out.mp4\"");
}

#[test]
fn builder_scenario_h264() {
    let t = ffmpeg_code_maker_at(Some(TABLE), "ffmpeg", "/tmp/a.mp4", "00:00:01", "00:00:05", "mp4", "h264", "", &T0).unwrap();
    assert_eq!(t, "ffmpeg -ss 00:00:01 -to 00:00:05 -i \"/tmp/a.mp4\" -c:v libx264  \"/tmp/a_20240102_030405.mp4\"");
}

#[test]
fn builder_scenario_with_clock() {
    let t = ffmpeg_code_maker(Some(TABLE), "ffmpeg", "/tmp/a.mp4", "00:00:01", "00:00:05", "mp4", "h264", "").unwrap();
    let head = "ffmpeg -ss 00:00:01 -to 00:00:05 -i \"/tmp/a.mp4\" -c:v libx264  \"/tmp/a_";
    assert!(t.starts_with(head));
    assert!(t.ends_with(".mp4\""));
    assert!(!t.contains("scale"));
    assert!(is_stamp(&t[head.len()..t.len() - ".mp4\"".len()]));
}

#[test]
fn builder_unknown_codec_copies() {
    let t = ffmpeg_code_maker_at(Some(TABLE), "ffmpeg", "/tmp/a.mp4", "0", "5", "mkv", "nonsense", "", &T0).unwrap();
    assert_eq!(t, "ffmpeg -ss 0 -to 5 -i \"/tmp/a.mp4\" -c copy  \"/tmp/a_20240102_030405.mkv\"");
    let t = ffmpeg_code_maker_at(None, "ffmpeg", "/tmp/a.mp4", "0", "5", "mkv", "h264", "", &T0).unwrap();
    assert!(t.contains(" -c copy "));
}

#[test]
fn builder_without_parent_fails() {
    let e = ffmpeg_code_maker_at(Some(TABLE), "ffmpeg", "", "0", "5", "mp4", "h264", "", &T0).unwrap_err();
    assert_eq!(e.kind, ErrorKind::NotFound);
}

#[test]
fn shell_invocations() {
    let u = combine_unix_command("ffmpeg -i x");
    assert_eq!(u.program, "sh");
    assert_eq!(u.args, vec!["-c".to_string(), "ffmpeg -i x".to_string()]);
    assert_eq!(u.creation_flags, 0);
    assert!(!u.pipe_stdout && !u.pipe_stderr);
    let w = combine_windows_command("ffmpeg -i x");
    assert_eq!(w.program, "cmd");
    assert_eq!(w.args, vec!["/C".to_string(), "ffmpeg -i x".to_string()]);
    assert_eq!(w.creation_flags, CREATE_NO_WINDOW);
    assert_eq!(combine_command("y", Platform::Windows).program, "cmd");
}

#[test]
fn command_maker_wraps_text() {
    let c = ffmpeg_command_maker(Some(TABLE), "ffmpeg", "/tmp/a.mp4", "0", "5", "mp4", "h265", "1:1", Platform::Posix).unwrap();
    assert!(c.text.contains("-c:v libx265 -vf scale=\"1:1\""));
    assert_eq!(c.invocation.program, "sh");
    assert_eq!(c.invocation.args, vec!["-c".to_string(), c.text.clone()]);
    assert!(c.invocation.pipe_stdout && c.invocation.pipe_stderr);
}
