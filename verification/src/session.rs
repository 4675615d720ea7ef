//! Launch-time decisions of a session.
//!
//! A session is created with a fixed PTY geometry, a platform-appropriate
//! shell and `TERM` value, and a drain loop tuned per platform. Those
//! choices, and the rule that a session cannot exist unless every
//! construction stage succeeded, are decided here; the embedding program
//! performs the allocation, the spawn and the endpoint cloning.

use vstd::prelude::*;

verus! {

/// PTY geometry, fixed at session creation.
pub struct PtyGeometry {
    pub cols: u16,
    pub rows: u16,
    pub pixel_width: u16,
    pub pixel_height: u16,
}

/// The platform the session runs on.
pub enum HostPlatform {
    Windows,
    Posix,
}

/// The shell spawned into the PTY's slave side.
pub enum ShellProgram {
    /// The Windows command-line shell.
    WindowsCmd,
    /// The POSIX default interactive shell.
    PosixShell,
}

/// The terminal type advertised to the child through `TERM`.
pub enum TerminalType {
    /// A monochrome-capable type, for the platform whose native console
    /// lacks ANSI pass-through.
    Monochrome,
    /// A full ANSI terminal type.
    FullAnsi,
}

/// Everything the embedding program needs to launch and drain a session.
pub struct LaunchPlan {
    pub geometry: PtyGeometry,
    pub shell: ShellProgram,
    pub term: TerminalType,
    /// Size of the drain loop's read buffer, in bytes.
    pub read_buffer_len: usize,
    /// Sleep between drain iterations, in milliseconds.
    pub poll_interval_ms: u32,
    /// Delay before the drain loop starts, in milliseconds; works around
    /// a startup race in PTY data availability on one platform.
    pub startup_delay_ms: u32,
}

/// Decide the launch plan for a platform: a 120x16 PTY, the platform
/// shell and terminal type, a 2000-byte read buffer (1024 on Windows),
/// a 30 ms polling interval, and a 50 ms startup delay on Windows only.
pub fn launch_plan(platform: HostPlatform) -> (r: LaunchPlan)
    ensures
        r.geometry.cols == 120 && r.geometry.rows == 16,
        r.geometry.pixel_width == 0 && r.geometry.pixel_height == 0,
        r.poll_interval_ms == 30,
        (platform is Windows ==> r.shell is WindowsCmd && r.term is Monochrome
            && r.read_buffer_len == 1024 && r.startup_delay_ms == 50),
        (platform is Posix ==> r.shell is PosixShell && r.term is FullAnsi && r.read_buffer_len
            == 2000 && r.startup_delay_ms == 0),
{
    let geometry = PtyGeometry { cols: 120, rows: 16, pixel_width: 0, pixel_height: 0 };
    match platform {
        HostPlatform::Windows => LaunchPlan {
            geometry,
            shell: ShellProgram::WindowsCmd,
            term: TerminalType::Monochrome,
            read_buffer_len: 1024,
            poll_interval_ms: 30,
            startup_delay_ms: 50,
        },
        HostPlatform::Posix => LaunchPlan {
            geometry,
            shell: ShellProgram::PosixShell,
            term: TerminalType::FullAnsi,
            read_buffer_len: 2000,
            poll_interval_ms: 30,
            startup_delay_ms: 0,
        },
    }
}

/// The command line that starts the shell.
pub fn shell_command_line(shell: ShellProgram) -> (r: &'static str)
    ensures
        (shell is WindowsCmd ==> r@ == "cmd.exe"@),
        (shell is PosixShell ==> r@ == "/bin/bash"@),
{
    match shell {
        ShellProgram::WindowsCmd => "cmd.exe",
        ShellProgram::PosixShell => "/bin/bash",
    }
}

/// The value given to the child's `TERM` environment variable.
pub fn term_variable_value(term: TerminalType) -> (r: &'static str)
    ensures
        (term is Monochrome ==> r@ == "xterm-mono"@),
        (term is FullAnsi ==> r@ == "vt100"@),
{
    match term {
        TerminalType::Monochrome => "xterm-mono",
        TerminalType::FullAnsi => "vt100",
    }
}

/// Why session construction failed.
pub enum SetupFailure {
    /// The PTY pair could not be allocated.
    PtyAllocationFailed,
    /// The shell could not be spawned onto the slave side.
    SpawnFailed,
    /// The master's read endpoint could not be cloned.
    ReaderCloneFailed,
    /// The master's write endpoint could not be taken.
    WriterTakeFailed,
}

/// Decide whether a session may exist: construction succeeds exactly when
/// every stage succeeded, and fails with the first stage that did not —
/// a session is never left half-constructed.
pub fn construction_outcome(
    pty_allocated: bool,
    child_spawned: bool,
    reader_cloned: bool,
    writer_taken: bool,
) -> (r: Result<(), SetupFailure>)
    ensures
        r is Ok <==> (pty_allocated && child_spawned && reader_cloned && writer_taken),
        (!pty_allocated ==> r == Result::<(), SetupFailure>::Err(
            SetupFailure::PtyAllocationFailed,
        )),
        (pty_allocated && !child_spawned ==> r == Result::<(), SetupFailure>::Err(
            SetupFailure::SpawnFailed,
        )),
        (pty_allocated && child_spawned && !reader_cloned ==> r == Result::<(), SetupFailure>::Err(
            SetupFailure::ReaderCloneFailed,
        )),
        (pty_allocated && child_spawned && reader_cloned && !writer_taken ==> r == Result::<
            (),
            SetupFailure,
        >::Err(SetupFailure::WriterTakeFailed)),
{
    if !pty_allocated {
        Err(SetupFailure::PtyAllocationFailed)
    } else if !child_spawned {
        Err(SetupFailure::SpawnFailed)
    } else if !reader_cloned {
        Err(SetupFailure::ReaderCloneFailed)
    } else if !writer_taken {
        Err(SetupFailure::WriterTakeFailed)
    } else {
        Ok(())
    }
}

} // verus!
