use vstd::prelude::*;

use crate::codec::opt_str_view;
use crate::command::{ffmpeg_command_maker, job_command_line, JobCommand};
use crate::error::{io_error_debug, io_error_maker, ErrorKind, IoKind};
use crate::event::{event_view, events_view, EventView, FFmpegEvent, JobEvent};
use crate::path::{clock_message, no_parent_message, parent_of, stamp_text, ClockTime};
use crate::process::{invocation_spec, invocation_view, kill_process, signalable, Platform};
use crate::registry::JobRegistry;

verus! {

/// The message of the error for an input file that does not exist.
pub open spec fn missing_input_message() -> Seq<char> {
    "檔案不存在"@
}

/// The events for lines of the diagnostic stream: one progress event for each
/// non-empty line, in order.
pub open spec fn progress_spec(lines: Seq<Seq<char>>) -> Seq<EventView>
    decreases lines.len(),
{
    if lines.len() == 0 {
        Seq::empty()
    } else if lines.last().len() > 0 {
        progress_spec(lines.drop_last()).push((FFmpegEvent::Progress, lines.last()))
    } else {
        progress_spec(lines.drop_last())
    }
}

/// The events at the end of a job: on a clean exit, the exit summary and then
/// the command text, both as finish events; where waiting failed, one error
/// carrying the failure's text as it was handed in.
pub open spec fn exit_spec(exit: Result<Seq<char>, Seq<char>>, command: Seq<char>) -> Seq<EventView> {
    match exit {
        Ok(summary) => seq![(FFmpegEvent::Finish, summary), (FFmpegEvent::Finish, command)],
        Err(m) => seq![(FFmpegEvent::Error, m)],
    }
}

pub open spec fn result_view(r: Result<String, String>) -> Result<Seq<char>, Seq<char>> {
    match r {
        Ok(s) => Ok(s@),
        Err(m) => Err(m@),
    }
}

/// Decides how a job starts. `input_exists` says whether the input file is
/// there, and `table` is the codec table document where it could be read.
/// Returns the command to spawn, or the one error event to report instead.
pub fn start_convert_action(
    input_exists: bool,
    table: Option<&str>,
    command: &str,
    path: &str,
    start_time: &str,
    end_time: &str,
    format: &str,
    encode: &str,
    scale: &str,
    target: Platform,
) -> (r: Result<JobCommand, JobEvent>)
    ensures
        !input_exists ==> match r {
            Ok(_) => false,
            Err(ev) => event_view(ev) == (FFmpegEvent::Error, io_error_debug(
                IoKind::NotFound,
                missing_input_message(),
            )),
        },
        input_exists ==> match r {
            Ok(c) => invocation_view(c.invocation) == invocation_spec(target, c.text@)
                && c.invocation.pipe_stdout && c.invocation.pipe_stderr
                && exists|t: ClockTime| t.valid() && job_command_line(command@, path@, start_time@,
                end_time@, format@, opt_str_view(table), encode@, scale@, stamp_text(t)) == Some(c.text@),
            Err(ev) => event_view(ev) == (FFmpegEvent::Error, if parent_of(path@) is None {
                io_error_debug(IoKind::NotFound, no_parent_message(path@))
            } else {
                io_error_debug(IoKind::Other, clock_message())
            }),
        },
{
    if !input_exists {
        let error = io_error_maker(ErrorKind::NotFound, "檔案不存在");
        let text = error.describe();
        return Err(JobEvent::new(FFmpegEvent::Error, text.as_str()));
    }
    match ffmpeg_command_maker(table, command, path, start_time, end_time, format, encode, scale, target) {
        Ok(c) => Ok(c),
        Err(e) => {
            let text = e.describe();
            Err(JobEvent::new(FFmpegEvent::Error, text.as_str()))
        },
    }
}

/// Records the outcome of spawning a job's process: its id goes into the
/// registry; a failure leaves the registry alone and gives one error event
/// carrying the failure's text as it was handed in.
pub fn on_spawned(registry: &mut JobRegistry, spawned: Result<u32, String>) -> (r: Option<JobEvent>)
    ensures
        match spawned {
            Ok(pid) => r is None && final(registry)@ == Some(pid),
            Err(m) => final(registry)@ == old(registry)@ && match r {
                Some(ev) => event_view(ev) == (FFmpegEvent::Error, m@),
                None => false,
            },
        },
{
    match spawned {
        Ok(pid) => {
            registry.store(pid);
            None
        },
        Err(m) => Some(JobEvent::new(FFmpegEvent::Error, m.as_str())),
    }
}

/// The progress events for lines read from the diagnostic stream.
pub fn progress_events(lines: &Vec<String>) -> (r: Vec<JobEvent>)
    ensures
        events_view(r@) == progress_spec(lines@.map_values(|l: String| l@)),
{
    let ghost ls = lines@.map_values(|l: String| l@);
    let mut r: Vec<JobEvent> = Vec::new();
    let mut i: usize = 0;
    while i < lines.len()
        invariant
            i <= lines.len(),
            ls == lines@.map_values(|l: String| l@),
            events_view(r@) == progress_spec(ls.subrange(0, i as int)),
        decreases lines.len() - i,
    {
        let line = &lines[i];
        proof {
            let t = ls.subrange(0, i as int + 1);
            assert(t.drop_last() =~= ls.subrange(0, i as int));
            assert(t.last() == line@);
        }
        if line.as_str().unicode_len() > 0 {
            let ghost before = r@;
            r.push(JobEvent::new(FFmpegEvent::Progress, line.as_str()));
            assert(events_view(r@) =~= events_view(before).push(event_view(r@.last())));
        }
        i = i + 1;
    }
    assert(ls.subrange(0, lines@.len() as int) =~= ls);
    r
}

/// Records the end of a job. `exit` is the exit summary, or the reason that
/// waiting for the exit failed; `command` is the job's command text. The
/// registry is cleared on either outcome.
pub fn on_exit(registry: &mut JobRegistry, exit: Result<String, String>, command: &str) -> (r: Vec<JobEvent>)
    ensures
        events_view(r@) == exit_spec(result_view(exit), command@),
        final(registry)@ is None,
{
    registry.take();
    let mut r: Vec<JobEvent> = Vec::new();
    match exit {
        Ok(summary) => {
            r.push(JobEvent::new(FFmpegEvent::Finish, summary.as_str()));
            r.push(JobEvent::new(FFmpegEvent::Finish, command));
        },
        Err(m) => {
            r.push(JobEvent::new(FFmpegEvent::Error, m.as_str()));
        },
    }
    assert(events_view(r@) =~= exit_spec(result_view(exit), command@));
    r
}

/// Cancels the running job, if any: takes its id out of the registry and
/// kills that process. Returns the id to which a kill was sent: the registered
/// one, where it names a single process; with no job running, nothing is killed.
pub fn stop_convert(registry: &mut JobRegistry) -> (killed: Option<u32>)
    ensures
        killed == match old(registry)@ {
            Some(p) => if signalable(p) { Some(p) } else { None },
            None => None,
        },
        final(registry)@ is None,
{
    match registry.take() {
        Some(pid) => if kill_process(pid) {
            Some(pid)
        } else {
            None
        },
        None => None,
    }
}

pub proof fn lemma_progress_kinds(lines: Seq<Seq<char>>)
    ensures
        forall|i: int| 0 <= i < progress_spec(lines).len()
            ==> (#[trigger] progress_spec(lines)[i]).0 == FFmpegEvent::Progress,
    decreases lines.len(),
{
    if lines.len() > 0 {
        lemma_progress_kinds(lines.drop_last());
    }
}

/// A job that ran and exited cleanly reports progress events only, then two
/// finish events: the exit summary, then the command text.
pub proof fn lemma_clean_run(lines: Seq<Seq<char>>, summary: Seq<char>, command: Seq<char>)
    ensures
        ({
            let evs = progress_spec(lines) + exit_spec(Ok(summary), command);
            let k = progress_spec(lines).len() as int;
            &&& evs.len() == k + 2
            &&& forall|i: int| 0 <= i < k ==> (#[trigger] evs[i]).0 == FFmpegEvent::Progress
            &&& evs[k] == (FFmpegEvent::Finish, summary)
            &&& evs[k + 1] == (FFmpegEvent::Finish, command)
        }),
{
    lemma_progress_kinds(lines);
    let evs = progress_spec(lines) + exit_spec(Ok(summary), command);
    let k = progress_spec(lines).len() as int;
    assert forall|i: int| 0 <= i < k implies (#[trigger] evs[i]).0 == FFmpegEvent::Progress by {
        assert(evs[i] == progress_spec(lines)[i]);
    }
}

} // verus!
