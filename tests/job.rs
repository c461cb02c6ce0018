use clip_job::command::JobCommand;
use clip_job::controller::{on_exit, on_spawned, progress_events, start_convert_action, stop_convert};
use clip_job::event::{FFmpegEvent, JobEvent};
use clip_job::process::{kill_process, Platform};
use clip_job::registry::JobRegistry;

fn kinds(evs: &[JobEvent]) -> Vec<FFmpegEvent> {
    evs.iter().map(|e| e.kind).collect()
}

fn start(exists: bool, path: &str) -> Result<JobCommand, JobEvent> {
    start_convert_action(exists, None, "ffmpeg", path, "0", "5", "mp4", "h264", "", Platform::Posix)
}

#[test]
fn event_labels() {
    assert_eq!(FFmpegEvent::Error.as_str(), "error");
    assert_eq!(FFmpegEvent::Finish.as_str(), "finish");
    assert_eq!(FFmpegEvent::Progress.as_str(), "progress");
}

#[test]
fn store_then_take() {
    let mut r = JobRegistry::new();
    assert_eq!(r.current(), None);
    r.store(7);
    r.store(42);
    assert_eq!(r.current(), Some(42));
    assert_eq!(r.take(), Some(42));
    assert_eq!(r.current(), None);
    assert_eq!(r.take(), None);
    assert_eq!(r.take(), None);
}

#[test]
fn missing_input_reports_one_not_found() {
    let ev = start(false, "/no/such/file.mp4").unwrap_err();
    assert_eq!(ev.kind, FFmpegEvent::Error);
    assert_eq!(ev.payload, format!("{:?}", std::io::Error::new(std::io::ErrorKind::NotFound, "檔案不存在")));
    assert!(ev.payload.contains("NotFound"));
}

#[test]
fn input_without_parent_reports_not_found() {
    let ev = start(true, "").unwrap_err();
    assert_eq!(ev.kind, FFmpegEvent::Error);
    assert_eq!(ev.payload, format!("{:?}", std::io::Error::new(std::io::ErrorKind::NotFound, "無法取得父目錄: ")));
}

#[test]
fn existing_input_gives_command() {
    let c = start(true, "/tmp/a.mp4").unwrap();
    assert!(c.text.starts_with("ffmpeg -ss 0 -to 5 -i \"/tmp/a.mp4\" -c copy  \"/tmp/a_"));
    assert_eq!(c.invocation.args[1], c.text);
}

#[test]
fn spawn_outcomes() {
    let mut r = JobRegistry::new();
    let ev = on_spawned(&mut r, Err("permission denied".to_string())).unwrap();
    assert_eq!(ev.kind, FFmpegEvent::Error);
    assert_eq!(ev.payload, "permission denied");
    assert_eq!(r.current(), None);
    assert!(on_spawned(&mut r, Ok(1234)).is_none());
    assert_eq!(r.current(), Some(1234));
}

#[test]
fn cancel_kills_registered_id() {
    // Linux caps process ids far below this one, so the signal reaches no process.
    let mut r = JobRegistry::new();
    r.store(2147483647);
    assert_eq!(stop_convert(&mut r), Some(2147483647));
    assert_eq!(r.current(), None);
}

#[test]
fn cancel_skips_group_id() {
    let mut r = JobRegistry::new();
    r.store(u32::MAX);
    assert_eq!(stop_convert(&mut r), None);
    assert_eq!(r.current(), None);
}

#[test]
fn cancel_without_job_does_nothing() {
    let mut r = JobRegistry::new();
    assert_eq!(stop_convert(&mut r), None);
    assert_eq!(r.current(), None);
}

#[test]
fn kill_refuses_group_ids() {
    assert!(!kill_process(0));
    assert!(!kill_process(u32::MAX));
    // Linux caps process ids far below this one, so the signal reaches no process.
    assert!(kill_process(2147483647));
}

#[test]
fn clean_run_event_order() {
    let mut r = JobRegistry::new();
    assert!(on_spawned(&mut r, Ok(99)).is_none());
    let lines = vec!["frame=1".to_string(), String::new(), "frame=2".to_string()];
    let mut evs = progress_events(&lines);
    evs.extend(on_exit(&mut r, Ok("exit status: 0".to_string()), "ffmpeg -i x"));
    assert_eq!(kinds(&evs), vec![FFmpegEvent::Progress, FFmpegEvent::Progress, FFmpegEvent::Finish, FFmpegEvent::Finish]);
    assert_eq!(evs[0].payload, "frame=1");
    assert_eq!(evs[1].payload, "frame=2");
    assert_eq!(evs[2].payload, "exit status: 0");
    assert_eq!(evs[3].payload, "ffmpeg -i x");
    assert_eq!(r.current(), None);
}

#[test]
fn failed_wait_reports_error_and_clears() {
    let mut r = JobRegistry::new();
    r.store(5);
    let evs = on_exit(&mut r, Err("broken pipe".to_string()), "cmd");
    assert_eq!(evs.len(), 1);
    assert_eq!(evs[0].kind, FFmpegEvent::Error);
    assert_eq!(evs[0].payload, "broken pipe");
    assert_eq!(r.current(), None);
}
