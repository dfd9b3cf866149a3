use vstd::prelude::*;

verus! {

/// The standard-I/O channel of the supervised process that a failed
/// operation was talking to.
#[derive(Clone, Copy, Debug, PartialEq, Eq, Structural)]
pub enum IoChannel {
    Stdin,
    Stdout,
}

/// Which file-shaped artifact a `FileError` is about.
#[derive(Clone, Copy, Debug, PartialEq, Eq, Structural)]
pub enum FileKind {
    /// The remote version-metadata document could not be parsed.
    Metadata,
    /// The installer artifact could not be fetched or written.
    Installer,
    /// The installer's output did not contain the expected version line.
    InstallerOutput,
}

/// Every failure a manager operation can surface, as one distinguishable
/// kind.  No kind is silently downgraded on the way to the caller.
#[derive(Clone, Copy, Debug, PartialEq, Eq, Structural)]
pub enum ServerErrors {
    /// A local I/O operation on the control path failed.
    IoError,
    /// The operation needs a supervised process, but none exists.
    ServerOffline,
    /// `start` was called while a process is already supervised.
    ServerAlreadyOnline,
    /// The launch artifact is absent from the server directory.
    ServerFilesMissing,
    /// `create` was called although the installed artifact already exists.
    ServerAlreadyExists,
    /// A standard-I/O channel of the process could not be taken.
    ThreadError(IoChannel),
    /// The process was needed but has already exited.
    ServerProcessExited,
    /// `stop` was refused because the process has not finished booting.
    ServerStillStarting,
    /// A remote fetch failed on the network.
    NetworkError,
    /// A fetched or produced file could not be parsed or saved.
    FileError(FileKind),
}

impl ServerErrors {
    /// Short stable name of the error kind.
    pub fn description(&self) -> (s: &'static str)
        ensures
            s@ == match *self {
                ServerErrors::IoError => "IOError"@,
                ServerErrors::ServerFilesMissing => "MissingServer"@,
                ServerErrors::ServerOffline => "ServerOffline"@,
                ServerErrors::ServerAlreadyExists => "ServerAlreadyExists"@,
                ServerErrors::ThreadError(_) => "ThreadError"@,
                ServerErrors::ServerProcessExited => "ServerProcessExited"@,
                ServerErrors::ServerAlreadyOnline => "ServerAlreadyOnline"@,
                ServerErrors::ServerStillStarting => "ServerStillStarting"@,
                ServerErrors::NetworkError => "NetworkError"@,
                ServerErrors::FileError(_) => "FileError"@,
            },
    {
        match *self {
            ServerErrors::IoError => "IOError",
            ServerErrors::ServerFilesMissing => "MissingServer",
            ServerErrors::ServerOffline => "ServerOffline",
            ServerErrors::ServerAlreadyExists => "ServerAlreadyExists",
            ServerErrors::ThreadError(_) => "ThreadError",
            ServerErrors::ServerProcessExited => "ServerProcessExited",
            ServerErrors::ServerAlreadyOnline => "ServerAlreadyOnline",
            ServerErrors::ServerStillStarting => "ServerStillStarting",
            ServerErrors::NetworkError => "NetworkError",
            ServerErrors::FileError(_) => "FileError",
        }
    }

    /// Human-readable report of the error, for operator consoles.
    pub fn message(&self) -> (s: &'static str)
        ensures
            s@ == match *self {
                ServerErrors::IoError => "Io error on the control path"@,
                ServerErrors::ServerFilesMissing => "Server files not found"@,
                ServerErrors::ServerOffline => "Server offline while called."@,
                ServerErrors::ServerAlreadyExists => "Server files already exist"@,
                ServerErrors::ThreadError(_) => "Error while creating thread for server"@,
                ServerErrors::ServerProcessExited => "Server processes needed but has unexpectedly exited."@,
                ServerErrors::ServerAlreadyOnline => "Attempted to start server whilst online"@,
                ServerErrors::ServerStillStarting => "Attempted to stop server whilst mid-loading"@,
                ServerErrors::NetworkError => "Error getting files from network"@,
                ServerErrors::FileError(_) => "Error parsing or saving a file(s)"@,
            },
    {
        match *self {
            ServerErrors::IoError => "Io error on the control path",
            ServerErrors::ServerFilesMissing => "Server files not found",
            ServerErrors::ServerOffline => "Server offline while called.",
            ServerErrors::ServerAlreadyExists => "Server files already exist",
            ServerErrors::ThreadError(_) => "Error while creating thread for server",
            ServerErrors::ServerProcessExited => "Server processes needed but has unexpectedly exited.",
            ServerErrors::ServerAlreadyOnline => "Attempted to start server whilst online",
            ServerErrors::ServerStillStarting => "Attempted to stop server whilst mid-loading",
            ServerErrors::NetworkError => "Error getting files from network",
            ServerErrors::FileError(_) => "Error parsing or saving a file(s)",
        }
    }
}

} // verus!
