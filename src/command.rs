use vstd::prelude::*;

use crate::codec::{codec_fragment, encode_codec, opt_str_view};
use crate::error::{ErrorKind, JobError};
use crate::path::{clock_message, full_path_maker, no_parent_message, output_path, output_path_at, parent_of, stamp_text, ClockTime};
use crate::process::{combine_command, invocation_spec, invocation_view, Invocation, Platform};

verus! {

/// The filter fragment for a scale spec: none for an empty spec, else the spec
/// verbatim as a video scale filter.
pub open spec fn scale_fragment(scale: Seq<char>) -> Seq<char> {
    if scale.len() == 0 {
        Seq::empty()
    } else {
        "-vf scale=\""@ + scale + "\""@
    }
}

/// `<program> -ss <start> -to <end> -i "<input>" <codec> <scale> "<output>"`.
pub open spec fn command_line(
    program: Seq<char>,
    start: Seq<char>,
    end: Seq<char>,
    input: Seq<char>,
    codec: Seq<char>,
    scale: Seq<char>,
    output: Seq<char>,
) -> Seq<char> {
    program + " -ss "@ + start + " -to "@ + end + " -i \""@ + input + "\" "@ + codec + " "@
        + scale_fragment(scale) + " \""@ + output + "\""@
}

/// The command text of a job whose output is stamped with `stamp`, or `None`
/// where the input path has no parent directory.
pub open spec fn job_command_line(
    program: Seq<char>,
    path: Seq<char>,
    start: Seq<char>,
    end: Seq<char>,
    format: Seq<char>,
    table: Option<Seq<char>>,
    encode: Seq<char>,
    scale: Seq<char>,
    stamp: Seq<char>,
) -> Option<Seq<char>> {
    match output_path(path, format, stamp) {
        Some(out) => Some(command_line(program, start, end, path, codec_fragment(table, encode), scale, out)),
        None => None,
    }
}

/// The scale filter fragment for `scale`.
pub fn scale_filter(scale: &str) -> (r: String)
    ensures
        r@ == scale_fragment(scale@),
{
    if scale.unicode_len() == 0 {
        String::new()
    } else {
        let mut r = "-vf scale=\"".to_owned();
        r.append(scale);
        r.append("\"");
        r
    }
}

/// Assembles the command text from its parts.
pub fn command_text(
    program: &str,
    start_time: &str,
    end_time: &str,
    path: &str,
    codec: &str,
    scale: &str,
    output: &str,
) -> (r: String)
    ensures
        r@ == command_line(program@, start_time@, end_time@, path@, codec@, scale@, output@),
{
    let mut r = program.to_owned();
    r.append(" -ss ");
    r.append(start_time);
    r.append(" -to ");
    r.append(end_time);
    r.append(" -i \"");
    r.append(path);
    r.append("\" ");
    r.append(codec);
    r.append(" ");
    let filter = scale_filter(scale);
    r.append(filter.as_str());
    r.append(" \"");
    r.append(output);
    r.append("\"");
    r
}

/// The command text of a job, with its output stamped with the time `t`. `table` is
/// the codec table document, where it could be read.
pub fn ffmpeg_code_maker_at(
    table: Option<&str>,
    command: &str,
    path: &str,
    start_time: &str,
    end_time: &str,
    format: &str,
    encode: &str,
    scale: &str,
    t: &ClockTime,
) -> (r: Result<String, JobError>)
    requires
        t.valid(),
    ensures
        match r {
            Ok(c) => job_command_line(command@, path@, start_time@, end_time@, format@,
                opt_str_view(table), encode@, scale@, stamp_text(*t)) == Some(c@),
            Err(e) => parent_of(path@) is None && e.kind == ErrorKind::NotFound
                && e.message@ == no_parent_message(path@),
        },
{
    let codec = match encode_codec(table, encode) {
        Some(c) => c,
        None => "-c copy".to_owned(),
    };
    let output = match output_path_at(path, format, t) {
        Ok(p) => p,
        Err(e) => return Err(e),
    };
    Ok(command_text(command, start_time, end_time, path, codec.as_str(), scale, output.as_str()))
}

/// The command text of a job, its output stamped with the time now.
pub fn ffmpeg_code_maker(
    table: Option<&str>,
    command: &str,
    path: &str,
    start_time: &str,
    end_time: &str,
    format: &str,
    encode: &str,
    scale: &str,
) -> (r: Result<String, JobError>)
    ensures
        match r {
            Ok(c) => exists|t: ClockTime| t.valid() && job_command_line(command@, path@, start_time@,
                end_time@, format@, opt_str_view(table), encode@, scale@, stamp_text(t)) == Some(c@),
            Err(e) => if parent_of(path@) is None {
                e.kind == ErrorKind::NotFound && e.message@ == no_parent_message(path@)
            } else {
                e.kind == ErrorKind::ClockFailure && e.message@ == clock_message()
            },
        },
{
    let codec = match encode_codec(table, encode) {
        Some(c) => c,
        None => "-c copy".to_owned(),
    };
    let output = match full_path_maker(path, format) {
        Ok(p) => p,
        Err(e) => return Err(e),
    };
    let c = command_text(command, start_time, end_time, path, codec.as_str(), scale, output.as_str());
    proof {
        let t = choose|t: ClockTime| t.valid() && output_path(path@, format@, stamp_text(t)) == Some(output@);
        assert(job_command_line(command@, path@, start_time@, end_time@, format@,
            opt_str_view(table), encode@, scale@, stamp_text(t)) == Some(c@));
    }
    Ok(c)
}

/// A job's command: its text, kept for display, and the invocation that runs it.
#[derive(Debug)]
pub struct JobCommand {
    pub text: String,
    pub invocation: Invocation,
}

/// Builds a job's command for `target`: the command text, run through the
/// platform's command interpreter. Both output streams of the process are
/// meant to be piped.
pub fn ffmpeg_command_maker(
    table: Option<&str>,
    command: &str,
    path: &str,
    start_time: &str,
    end_time: &str,
    format: &str,
    encode: &str,
    scale: &str,
    target: Platform,
) -> (r: Result<JobCommand, JobError>)
    ensures
        match r {
            Ok(c) => invocation_view(c.invocation) == invocation_spec(target, c.text@)
                && c.invocation.pipe_stdout && c.invocation.pipe_stderr
                && exists|t: ClockTime| t.valid() && job_command_line(command@, path@, start_time@,
                end_time@, format@, opt_str_view(table), encode@, scale@, stamp_text(t)) == Some(c.text@),
            Err(e) => if parent_of(path@) is None {
                e.kind == ErrorKind::NotFound && e.message@ == no_parent_message(path@)
            } else {
                e.kind == ErrorKind::ClockFailure && e.message@ == clock_message()
            },
        },
{
    let text = match ffmpeg_code_maker(table, command, path, start_time, end_time, format, encode, scale) {
        Ok(t) => t,
        Err(e) => return Err(e),
    };
    let mut invocation = combine_command(text.as_str(), target);
    invocation.pipe_stdout = true;
    invocation.pipe_stderr = true;
    Ok(JobCommand { text, invocation })
}

} // verus!
