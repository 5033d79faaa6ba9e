//! The remote execution gateway, as far as it can be decided without a
//! network: what a call is, how it is put to the remote shell and the copy
//! program, and how their answers are judged. A call either runs a command
//! on a host or copies files to it; the host's address is all that the
//! gateway is told of the host.

use vstd::prelude::*;
use vstd::string::*;
use crate::text::{owned, views};

verus! {

/// One call on the gateway.
#[derive(Debug, PartialEq, Eq)]
pub enum GatewayCall {
    /// Run `command` on `host`.
    Exec { host: String, command: String },
    /// Copy the local files `sources` to `destination` on `host`; whole
    /// directories where `recursive` is set.
    Copy { sources: Vec<String>, host: String, destination: String, recursive: bool },
}

/// A gateway call as plain text.
pub enum CallView {
    Exec { host: Seq<char>, command: Seq<char> },
    Copy { sources: Seq<Seq<char>>, host: Seq<char>, destination: Seq<char>, recursive: bool },
}

impl View for GatewayCall {
    type V = CallView;

    open spec fn view(&self) -> CallView {
        match self {
            GatewayCall::Exec { host, command } => CallView::Exec {
                host: host@,
                command: command@,
            },
            GatewayCall::Copy { sources, host, destination, recursive } => CallView::Copy {
                sources: views(sources@),
                host: host@,
                destination: destination@,
                recursive: *recursive,
            },
        }
    }
}

/// The views of a list of calls.
pub open spec fn calls_view(calls: Seq<GatewayCall>) -> Seq<CallView> {
    Seq::new(calls.len(), |i: int| calls[i]@)
}

/// The call that runs `command` on `host`.
pub open spec fn exec_on(host: Seq<char>, command: Seq<char>) -> CallView {
    CallView::Exec { host, command }
}

/// The call that copies `sources` to `destination` on `host`.
pub open spec fn copy_to(
    host: Seq<char>,
    sources: Seq<Seq<char>>,
    destination: Seq<char>,
    recursive: bool,
) -> CallView {
    CallView::Copy { sources, host, destination, recursive }
}

/// The account and host that a call is addressed to.
pub open spec fn remote_login(host: Seq<char>) -> Seq<char> {
    "root@"@ + host
}

/// The arguments of the program that carries out `call`: for a command the
/// login and the command; for a copy the sources, after `-r` where whole
/// directories are copied, and then login, a colon and the destination.
pub open spec fn arguments_of(call: CallView) -> Seq<Seq<char>> {
    match call {
        CallView::Exec { host, command } => seq![remote_login(host), command],
        CallView::Copy { sources, host, destination, recursive } => (if recursive {
            seq!["-r"@]
        } else {
            Seq::empty()
        }) + sources + seq![remote_login(host) + ":"@ + destination],
    }
}

impl GatewayCall {
    /// The host that the call is addressed to.
    pub fn host(&self) -> (r: &str)
        ensures
            r@ == (match self@ {
                CallView::Exec { host, .. } => host,
                CallView::Copy { host, .. } => host,
            }),
    {
        match self {
            GatewayCall::Exec { host, .. } => host.as_str(),
            GatewayCall::Copy { host, .. } => host.as_str(),
        }
    }

    /// The program that carries out the call: the remote shell for a
    /// command, the copy program for a copy.
    pub fn program(&self) -> (r: &'static str)
        ensures
            r@ == (if self@ is Exec {
                "ssh"@
            } else {
                "scp"@
            }),
    {
        match self {
            GatewayCall::Exec { .. } => "ssh",
            GatewayCall::Copy { .. } => "scp",
        }
    }

    /// The arguments that the program is started with.
    pub fn arguments(&self) -> (r: Vec<String>)
        ensures
            views(r@) == arguments_of(self@),
    {
        let mut out: Vec<String> = Vec::new();
        match self {
            GatewayCall::Exec { host, command } => {
                let mut login: String = owned("root@");
                login.append(host.as_str());
                out.push(login);
                out.push(command.clone());
                proof {
                    assert(views(out@) =~= arguments_of(self@));
                }
            },
            GatewayCall::Copy { sources, host, destination, recursive } => {
                if *recursive {
                    out.push(owned("-r"));
                }
                let ghost head = views(out@);
                proof {
                    assert(head =~= if *recursive {
                        seq!["-r"@]
                    } else {
                        Seq::<Seq<char>>::empty()
                    });
                }
                let n: usize = sources.len();
                let mut i: usize = 0;
                while i < n
                    invariant
                        n == sources@.len(),
                        i <= n,
                        views(out@) == head + views(sources@).subrange(0, i as int),
                    decreases n - i,
                {
                    let ghost before = views(out@);
                    out.push(sources[i].clone());
                    proof {
                        assert(views(out@) =~= before.push(sources@[i as int]@));
                        assert(views(sources@).subrange(0, i + 1) =~= views(sources@).subrange(
                            0,
                            i as int,
                        ).push(sources@[i as int]@));
                        assert(views(out@) =~= head + views(sources@).subrange(0, i + 1));
                    }
                    i = i + 1;
                }
                let mut target: String = owned("root@");
                target.append(host.as_str());
                target.append(":");
                target.append(destination.as_str());
                let ghost before = views(out@);
                out.push(target);
                proof {
                    assert(views(sources@).subrange(0, n as int) =~= views(sources@));
                    assert(views(out@) =~= before.push(
                        remote_login(host@) + ":"@ + destination@,
                    ));
                    assert(views(out@) =~= arguments_of(self@));
                }
            },
        }
        out
    }
}

/// Why a command on a host counts as failed.
#[derive(Clone, Copy, Debug, PartialEq, Eq, Structural)]
pub enum RemoteExecError {
    /// The command could not be brought to the host.
    Transport,
    /// The command ran and ended with this status, which is not zero.
    ExitStatus(i32),
}

/// Why a copy to a host counts as failed.
#[derive(Clone, Copy, Debug, PartialEq, Eq, Structural)]
pub enum RemoteTransferError {
    /// The copy program could not be started.
    Transport,
    /// The copy program ended with this status, which is not zero.
    ExitStatus(i32),
}

/// Why a call on the gateway counts as failed.
#[derive(Clone, Copy, Debug, PartialEq, Eq, Structural)]
pub enum GatewayError {
    Exec(RemoteExecError),
    Transfer(RemoteTransferError),
}

/// How a command ended: `status` is its exit status, or nothing where it
/// never ran.
pub open spec fn exec_outcome(status: Option<i32>) -> Result<(), RemoteExecError> {
    match status {
        None => Err(RemoteExecError::Transport),
        Some(code) => if code == 0 {
            Ok(())
        } else {
            Err(RemoteExecError::ExitStatus(code))
        },
    }
}

/// How a copy ended: `status` is the exit status of the copy program, or
/// nothing where it never ran.
pub open spec fn copy_outcome(status: Option<i32>) -> Result<(), RemoteTransferError> {
    match status {
        None => Err(RemoteTransferError::Transport),
        Some(code) => if code == 0 {
            Ok(())
        } else {
            Err(RemoteTransferError::ExitStatus(code))
        },
    }
}

/// Judges how a command ended.
pub fn exec_result(status: Option<i32>) -> (r: Result<(), RemoteExecError>)
    ensures
        r == exec_outcome(status),
{
    match status {
        None => Err(RemoteExecError::Transport),
        Some(code) => if code == 0 {
            Ok(())
        } else {
            Err(RemoteExecError::ExitStatus(code))
        },
    }
}

/// Judges how a copy ended.
pub fn copy_result(status: Option<i32>) -> (r: Result<(), RemoteTransferError>)
    ensures
        r == copy_outcome(status),
{
    match status {
        None => Err(RemoteTransferError::Transport),
        Some(code) => if code == 0 {
            Ok(())
        } else {
            Err(RemoteTransferError::ExitStatus(code))
        },
    }
}

/// How `call` ended, by its kind.
pub open spec fn call_outcome(call: CallView, status: Option<i32>) -> Result<(), GatewayError> {
    match call {
        CallView::Exec { .. } => match exec_outcome(status) {
            Ok(()) => Ok(()),
            Err(e) => Err(GatewayError::Exec(e)),
        },
        CallView::Copy { .. } => match copy_outcome(status) {
            Ok(()) => Ok(()),
            Err(e) => Err(GatewayError::Transfer(e)),
        },
    }
}

/// Judges how a call ended: a command gives an execution error, a copy a
/// transfer error, and only status zero is success.
pub fn call_result(call: &GatewayCall, status: Option<i32>) -> (r: Result<(), GatewayError>)
    ensures
        r == call_outcome(call@, status),
{
    match call {
        GatewayCall::Exec { .. } => match exec_result(status) {
            Ok(()) => Ok(()),
            Err(e) => Err(GatewayError::Exec(e)),
        },
        GatewayCall::Copy { .. } => match copy_result(status) {
            Ok(()) => Ok(()),
            Err(e) => Err(GatewayError::Transfer(e)),
        },
    }
}

} // verus!
