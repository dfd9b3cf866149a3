use vstd::prelude::*;

use crate::errors::IoChannel;
use crate::errors::ServerErrors;

verus! {

/// Nominal listen port reported by a successful `start`.
pub const GAME_PORT: u32 = 25565;

/// What the caller observed while spawning the server process and taking
/// its output channel.
#[derive(Clone, Copy, Debug, PartialEq, Eq, Structural)]
pub enum SpawnOutcome {
    /// The process is running with all three standard channels piped and
    /// the log-tailing task has been launched on its output.
    Spawned,
    /// The process could not be spawned at all.
    SpawnFailed,
    /// The process spawned but its output channel could not be taken.
    NoStdout,
}

/// What the caller observed while delivering one best-effort command to
/// the running process's input channel.
#[derive(Clone, Copy, Debug, PartialEq, Eq, Structural)]
pub enum SendOutcome {
    /// The command line went out and was flushed.
    Sent,
    /// The input channel could not be taken.
    NoChannel,
    /// Writing or flushing the line failed.
    WriteFailed,
}

/// What the caller observed while shutting the process down: delivering
/// the shutdown command, joining the log tailer and reaping the process.
#[derive(Clone, Copy, Debug, PartialEq, Eq, Structural)]
pub enum StopOutcome {
    /// The command was delivered, the log tailer has terminated and the
    /// process has been reaped.
    Stopped,
    /// The process's input channel could not be taken.
    NoChannel,
    /// Writing or flushing the shutdown command failed.
    WriteFailed,
    /// The command went out but waiting for the process to exit failed.
    WaitFailed,
}

/// One supervised process: the readiness latch it shares with its
/// log-tailing task.  The latch is true from the spawn until the tailer
/// observes the readiness marker in the output stream.
#[derive(Debug)]
pub struct Instance {
    pub starting: bool,
}

/// Supervises zero or one server process.  `server` is `Some` exactly
/// while a process is supervised; its absence means "offline".
#[derive(Debug)]
pub struct Manager {
    pub server: Option<Instance>,
}

/// A freshly constructed manager supervises nothing.
pub open spec fn spec_new() -> Manager {
    Manager { server: None }
}

/// Whether a process is currently supervised.
pub open spec fn spec_online(m: Manager) -> bool {
    m.server is Some
}

/// The checks `start` makes before any process is spawned.
pub open spec fn spec_check_start(m: Manager, files_exist: bool) -> Result<(), ServerErrors> {
    if !files_exist {
        Err(ServerErrors::ServerFilesMissing)
    } else if m.server is Some {
        Err(ServerErrors::ServerAlreadyOnline)
    } else {
        Ok(())
    }
}

/// The full `start` transition, given the spawn outcome the caller
/// observed once the checks had passed.
pub open spec fn spec_start(m: Manager, files_exist: bool, spawn: SpawnOutcome) -> (Manager, Result<
    u32,
    ServerErrors,
>) {
    match spec_check_start(m, files_exist) {
        Err(e) => (m, Err(e)),
        Ok(()) => match spawn {
            SpawnOutcome::Spawned => (
                Manager { server: Some(Instance { starting: true }) },
                Ok(GAME_PORT),
            ),
            SpawnOutcome::SpawnFailed => (m, Err(ServerErrors::IoError)),
            SpawnOutcome::NoStdout => (m, Err(ServerErrors::ThreadError(IoChannel::Stdout))),
        },
    }
}

/// Clearing the readiness latch, as the log tailer does upon observing
/// the readiness marker.  Idempotent; a no-op while offline.
pub open spec fn spec_mark_ready(m: Manager) -> Manager {
    match m.server {
        Some(_) => Manager { server: Some(Instance { starting: false }) },
        None => m,
    }
}

/// The checks `stop` makes before the shutdown command is delivered:
/// a process must exist, must have finished booting, and must still be
/// alive enough to take a command.
pub open spec fn spec_check_stop(m: Manager, alive: bool) -> Result<(), ServerErrors> {
    match m.server {
        None => Err(ServerErrors::ServerOffline),
        Some(i) => if i.starting {
            Err(ServerErrors::ServerStillStarting)
        } else if !alive {
            Err(ServerErrors::ServerProcessExited)
        } else {
            Ok(())
        },
    }
}

/// The full `stop` transition.  The process slot is cleared only once
/// the whole shutdown flow succeeded; any failure keeps the slot.
pub open spec fn spec_stop(m: Manager, alive: bool, flow: StopOutcome) -> (Manager, Result<
    (),
    ServerErrors,
>) {
    match spec_check_stop(m, alive) {
        Err(e) => (m, Err(e)),
        Ok(()) => match flow {
            StopOutcome::Stopped => (Manager { server: None }, Ok(())),
            StopOutcome::NoChannel => (m, Err(ServerErrors::ThreadError(IoChannel::Stdin))),
            StopOutcome::WriteFailed => (m, Err(ServerErrors::IoError)),
            StopOutcome::WaitFailed => (m, Err(ServerErrors::IoError)),
        },
    }
}

/// The `delete` decision: stop first, ignoring only "already offline";
/// then the installed files must exist for there to be anything to
/// remove.  `Ok` licenses the caller to remove the server directory.
pub open spec fn spec_delete(
    m: Manager,
    files_exist: bool,
    alive: bool,
    flow: StopOutcome,
) -> (Manager, Result<(), ServerErrors>) {
    let (m1, stopped) = spec_stop(m, alive, flow);
    match stopped {
        Err(ServerErrors::ServerOffline) | Ok(()) => if !files_exist {
            (m1, Err(ServerErrors::ServerFilesMissing))
        } else {
            (m1, Ok(()))
        },
        Err(e) => (m1, Err(e)),
    }
}

/// Interpreting one best-effort command delivery: a stale process handle
/// is reported as `ServerProcessExited`, a lost channel or failed write
/// as the corresponding I/O kind.
pub open spec fn spec_send(alive: bool, delivery: SendOutcome) -> Result<(), ServerErrors> {
    if !alive {
        Err(ServerErrors::ServerProcessExited)
    } else {
        match delivery {
            SendOutcome::Sent => Ok(()),
            SendOutcome::NoChannel => Err(ServerErrors::ThreadError(IoChannel::Stdin)),
            SendOutcome::WriteFailed => Err(ServerErrors::IoError),
        }
    }
}

/// A line of process output is the readiness marker when its content at
/// the fixed structural position holds the known "ready" token.
pub open spec fn spec_ready_marker(line: Seq<char>) -> bool {
    line.len() > 38 && line.subrange(33, 37) == "Done"@
}

impl Instance {
    /// Maps the observed process aliveness to the error `send` and `stop`
    /// report for a stale handle.
    pub fn process_check(&self, alive: bool) -> (r: Result<(), ServerErrors>)
        ensures
            r == if alive {
                Result::<(), ServerErrors>::Ok(())
            } else {
                Result::<(), ServerErrors>::Err(ServerErrors::ServerProcessExited)
            },
    {
        if alive {
            Ok(())
        } else {
            Err(ServerErrors::ServerProcessExited)
        }
    }

    /// Interprets one command delivery to this instance.
    pub fn send(&self, alive: bool, delivery: SendOutcome) -> (r: Result<(), ServerErrors>)
        ensures
            r == spec_send(alive, delivery),
    {
        if !alive {
            return Err(ServerErrors::ServerProcessExited);
        }
        match delivery {
            SendOutcome::Sent => Ok(()),
            SendOutcome::NoChannel => Err(ServerErrors::ThreadError(IoChannel::Stdin)),
            SendOutcome::WriteFailed => Err(ServerErrors::IoError),
        }
    }
}

impl Instance {
    /// Interprets the delivery of the graceful shutdown command to this
    /// instance; the command itself is `stop_command`.
    pub fn stop(&self, alive: bool, delivery: SendOutcome) -> (r: Result<(), ServerErrors>)
        ensures
            r == spec_send(alive, delivery),
    {
        self.send(alive, delivery)
    }
}

impl Default for Manager {
    /// The default manager supervises nothing.
    fn default() -> (m: Manager)
        ensures
            m == spec_new(),
    {
        Manager::new()
    }
}

impl Manager {
    /// A manager that supervises nothing.
    pub fn new() -> (m: Manager)
        ensures
            m == spec_new(),
    {
        Manager { server: None }
    }

    /// Whether a process is currently supervised.
    pub fn is_online(&self) -> (r: bool)
        ensures
            r == spec_online(*self),
    {
        self.server.is_some()
    }

    /// The checks that must pass before a process may be spawned.
    pub fn check_start(&self, files_exist: bool) -> (r: Result<(), ServerErrors>)
        ensures
            r == spec_check_start(*self, files_exist),
    {
        if !files_exist {
            Err(ServerErrors::ServerFilesMissing)
        } else if self.server.is_some() {
            Err(ServerErrors::ServerAlreadyOnline)
        } else {
            Ok(())
        }
    }

    /// Launches a server: records the new instance with its readiness
    /// latch set, given the outcome of the spawn the caller performed
    /// after `check_start` passed.  Returns the nominal listen port; the
    /// latch and the log tailer outlive the call, which does not wait
    /// for readiness.
    pub fn start(&mut self, files_exist: bool, spawn: SpawnOutcome) -> (r: Result<
        u32,
        ServerErrors,
    >)
        ensures
            (*final(self), r) == spec_start(*old(self), files_exist, spawn),
    {
        if !files_exist {
            return Err(ServerErrors::ServerFilesMissing);
        }
        if self.server.is_some() {
            return Err(ServerErrors::ServerAlreadyOnline);
        }
        match spawn {
            SpawnOutcome::Spawned => {
                self.server = Some(Instance { starting: true });
                Ok(GAME_PORT)
            },
            SpawnOutcome::SpawnFailed => Err(ServerErrors::IoError),
            SpawnOutcome::NoStdout => Err(ServerErrors::ThreadError(IoChannel::Stdout)),
        }
    }

    /// Clears the readiness latch; called when the log tailer has
    /// observed the readiness marker.  Idempotent.
    pub fn mark_ready(&mut self)
        ensures
            *final(self) == spec_mark_ready(*old(self)),
    {
        if self.server.is_some() {
            self.server = Some(Instance { starting: false });
        }
    }

    /// The checks that must pass before the shutdown command may be
    /// delivered.
    pub fn check_stop(&self, alive: bool) -> (r: Result<(), ServerErrors>)
        ensures
            r == spec_check_stop(*self, alive),
    {
        match &self.server {
            None => Err(ServerErrors::ServerOffline),
            Some(i) => {
                if i.starting {
                    Err(ServerErrors::ServerStillStarting)
                } else if !alive {
                    Err(ServerErrors::ServerProcessExited)
                } else {
                    Ok(())
                }
            },
        }
    }

    /// Stops the server, given the outcome of the shutdown flow the
    /// caller performed after `check_stop` passed.  Success means the
    /// log tailer has been joined and the process reaped; only then is
    /// the process slot cleared.
    pub fn stop(&mut self, alive: bool, flow: StopOutcome) -> (r: Result<(), ServerErrors>)
        ensures
            (*final(self), r) == spec_stop(*old(self), alive, flow),
    {
        match self.check_stop(alive) {
            Err(e) => Err(e),
            Ok(()) => match flow {
                StopOutcome::Stopped => {
                    self.server = None;
                    Ok(())
                },
                StopOutcome::NoChannel => Err(ServerErrors::ThreadError(IoChannel::Stdin)),
                StopOutcome::WriteFailed => Err(ServerErrors::IoError),
                StopOutcome::WaitFailed => Err(ServerErrors::IoError),
            },
        }
    }

    /// Grants operator privilege: decides whether a process is there to
    /// take the command and returns the command to deliver best-effort.
    /// Delivery failure is logged by the caller, never propagated.
    pub fn op(&self, name: &str) -> (r: Result<String, ServerErrors>)
        ensures
            self.server is Some <==> r is Ok,
            r matches Ok(c) ==> c@ == "/op "@ + name@,
            r matches Err(e) ==> e == ServerErrors::ServerOffline,
    {
        if self.server.is_some() {
            Ok(op_command(name))
        } else {
            Err(ServerErrors::ServerOffline)
        }
    }

    /// Revokes operator privilege; the counterpart of `op`.
    pub fn de_op(&self, name: &str) -> (r: Result<String, ServerErrors>)
        ensures
            self.server is Some <==> r is Ok,
            r matches Ok(c) ==> c@ == "/deop "@ + name@,
            r matches Err(e) ==> e == ServerErrors::ServerOffline,
    {
        if self.server.is_some() {
            Ok(de_op_command(name))
        } else {
            Err(ServerErrors::ServerOffline)
        }
    }

    /// Decides a `delete`: stop first (ignoring only "already offline"),
    /// then the installed files must exist.  `Ok` licenses the caller to
    /// remove the server directory recursively; that removal is
    /// destructive and irreversible.
    pub fn delete(&mut self, files_exist: bool, alive: bool, flow: StopOutcome) -> (r: Result<
        (),
        ServerErrors,
    >)
        ensures
            (*final(self), r) == spec_delete(*old(self), files_exist, alive, flow),
    {
        let stopped = self.stop(alive, flow);
        match stopped {
            Err(ServerErrors::ServerOffline) | Ok(()) => {
                if !files_exist {
                    Err(ServerErrors::ServerFilesMissing)
                } else {
                    Ok(())
                }
            },
            Err(e) => Err(e),
        }
    }
}

/// Whether a line of process output is the readiness marker: long
/// enough to carry the fixed structural position, with the known
/// "ready" token there.  A line too short to inspect is simply not the
/// marker, never a fault.
pub fn is_ready_marker(line: &str) -> (r: bool)
    ensures
        r == spec_ready_marker(line@),
{
    let n = line.unicode_len();
    if n <= 38 {
        return false;
    }
    let hit = line.get_char(33) == 'D' && line.get_char(34) == 'o' && line.get_char(35) == 'n'
        && line.get_char(36) == 'e';
    proof {
        reveal_strlit("Done");
        if hit {
            assert(line@.subrange(33, 37) =~= "Done"@);
        } else {
            if line@.subrange(33, 37) == "Done"@ {
                assert(line@[33] == "Done"@[0]);
                assert(line@[34] == "Done"@[1]);
                assert(line@[35] == "Done"@[2]);
                assert(line@[36] == "Done"@[3]);
            }
        }
    }
    hit
}

/// The fixed command that asks the process to shut down gracefully.
pub fn stop_command() -> (c: String)
    ensures
        c@ == "/stop"@,
{
    String::from_str("/stop")
}

/// The fixed-template command that grants operator privilege.
pub fn op_command(name: &str) -> (c: String)
    ensures
        c@ == "/op "@ + name@,
{
    String::from_str("/op ").concat(name)
}

/// The fixed-template command that revokes operator privilege.
pub fn de_op_command(name: &str) -> (c: String)
    ensures
        c@ == "/deop "@ + name@,
{
    String::from_str("/deop ").concat(name)
}

/// Frames a command for the process's input channel: the text followed
/// by exactly one newline.  Each framed command is flushed immediately
/// by the caller, so it reaches the process synchronously.
pub fn encode_command(msg: &str) -> (line: String)
    ensures
        line@ == msg@ + "\n"@,
{
    String::from_str(msg).concat("\n")
}

/// Name of the launch artifact whose presence means the server's files
/// are installed.
pub fn jar_name() -> (n: &'static str)
    ensures
        n@ == "fabric-server-launch.jar"@,
{
    "fabric-server-launch.jar"
}

} // verus!
