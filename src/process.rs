use vstd::prelude::*;

verus! {

/// The platform whose command interpreter runs a job.
#[derive(PartialEq, Eq, Structural, Clone, Copy, Debug)]
pub enum Platform {
    /// `sh -c <command>`.
    Posix,
    /// `cmd /C <command>`, with no console window.
    Windows,
}

/// The Windows process creation flag that keeps a console window from opening.
pub const CREATE_NO_WINDOW: u32 = 0x0800_0000;

/// A program with its arguments and process creation flags, ready to spawn,
/// and whether its standard output and its diagnostic output go to pipes.
#[derive(Debug)]
pub struct Invocation {
    pub program: String,
    pub args: Vec<String>,
    pub creation_flags: u32,
    pub pipe_stdout: bool,
    pub pipe_stderr: bool,
}

pub open spec fn args_view(args: Seq<String>) -> Seq<Seq<char>> {
    args.map_values(|a: String| a@)
}

/// What a platform's interpreter is asked to run for the command text `command`:
/// program, arguments and creation flags.
pub open spec fn invocation_spec(target: Platform, command: Seq<char>) -> (Seq<char>, Seq<Seq<char>>, u32) {
    match target {
        Platform::Posix => ("sh"@, seq!["-c"@, command], 0),
        Platform::Windows => ("cmd"@, seq!["/C"@, command], CREATE_NO_WINDOW),
    }
}

pub open spec fn invocation_view(inv: Invocation) -> (Seq<char>, Seq<Seq<char>>, u32) {
    (inv.program@, args_view(inv.args@), inv.creation_flags)
}

fn interpreter(program: &str, flag: &str, command: &str, creation_flags: u32) -> (r: Invocation)
    ensures
        invocation_view(r) == (program@, seq![flag@, command@], creation_flags),
        !r.pipe_stdout && !r.pipe_stderr,
{
    let mut args: Vec<String> = Vec::new();
    args.push(flag.to_owned());
    args.push(command.to_owned());
    let r = Invocation { program: program.to_owned(), args, creation_flags, pipe_stdout: false, pipe_stderr: false };
    assert(args_view(r.args@) =~= seq![flag@, command@]);
    r
}

/// `sh -c <command>`.
pub fn combine_unix_command(command: &str) -> (r: Invocation)
    ensures
        invocation_view(r) == invocation_spec(Platform::Posix, command@),
        !r.pipe_stdout && !r.pipe_stderr,
{
    interpreter("sh", "-c", command, 0)
}

/// `cmd /C <command>`, started without a console window.
pub fn combine_windows_command(command: &str) -> (r: Invocation)
    ensures
        invocation_view(r) == invocation_spec(Platform::Windows, command@),
        !r.pipe_stdout && !r.pipe_stderr,
{
    interpreter("cmd", "/C", command, CREATE_NO_WINDOW)
}

/// The invocation that runs the command text `command` on `target`.
pub fn combine_command(command: &str, target: Platform) -> (r: Invocation)
    ensures
        invocation_view(r) == invocation_spec(target, command@),
        !r.pipe_stdout && !r.pipe_stderr,
{
    match target {
        Platform::Posix => combine_unix_command(command),
        Platform::Windows => combine_windows_command(command),
    }
}

/// The kill below is POSIX only: nix builds on Unix targets alone, so this
/// library builds for those, and a Windows host terminates processes itself.
///
/// Relies on `nix::sys::signal::kill` with `SIGKILL`: asks the kernel to kill
/// the process `pid`. Its failure is ignored, so nothing is stated.
#[verifier::external_body]
fn kill_unix_process(pid: i32)
    requires
        pid > 0,
{
    let _ = nix::sys::signal::kill(nix::unistd::Pid::from_raw(pid), nix::sys::signal::Signal::SIGKILL);
}

/// Whether `pid` can name a single process to signal: zero and the values that
/// do not fit a positive `pid_t` would address process groups instead.
pub open spec fn signalable(pid: u32) -> bool {
    0 < pid && pid <= i32::MAX
}

/// Forcibly terminates the process `pid`, best effort: a failure, or an id that
/// cannot name a single process, is ignored. Returns whether a kill was sent.
pub fn kill_process(pid: u32) -> (sent: bool)
    ensures
        sent == signalable(pid),
{
    if 0 < pid && pid <= i32::MAX as u32 {
        kill_unix_process(pid as i32);
        true
    } else {
        false
    }
}

} // verus!
