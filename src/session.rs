use vstd::prelude::*;
use crate::command::{dispatch, dispatched, Operation, RemoteCall, Subcommands};
use crate::render::Reply;
use crate::text::{decimal, decimal_of};

verus! {

/// The one protocol version of the store that this client speaks.
pub const PERMISSION_STORE_SPEC_VER: u32 = 2;

/// Why an invocation stopped without a result.
pub enum ClientError {
    /// The session bus could not be reached.
    Connection(String),
    /// The proxy for the store could not be built on the connection.
    ProxyCreation(String),
    /// The store's `version` property could not be read.
    VersionRead(String),
    /// The store speaks another protocol version, the one given.
    VersionMismatch(u32),
    /// The dispatched call failed, on the bus or in the store.
    Remote(Operation, String),
}

/// The verb that names an operation in messages.
pub open spec fn verb(op: Operation) -> Seq<char> {
    match op {
        Operation::Delete => "delete"@,
        Operation::Get => "get"@,
        Operation::List => "list"@,
        Operation::Lookup => "lookup"@,
        Operation::SetPermissions => "set"@,
    }
}

fn verb_text(op: Operation) -> (r: &'static str)
    ensures
        r@ == verb(op),
{
    match op {
        Operation::Delete => "delete",
        Operation::Get => "get",
        Operation::List => "list",
        Operation::Lookup => "lookup",
        Operation::SetPermissions => "set",
    }
}

impl ClientError {
    /// The message reported for this error.
    pub open spec fn text(self) -> Seq<char> {
        match self {
            ClientError::Connection(m) => "Failed to connect: "@ + m@,
            ClientError::ProxyCreation(m) => "Failed to create proxy: "@ + m@,
            ClientError::VersionRead(m) => "Failed to get server version: "@ + m@,
            ClientError::VersionMismatch(found) => "Server version "@ + decimal_of(found as nat)
                + " does not match expected version "@ + decimal_of(
                PERMISSION_STORE_SPEC_VER as nat,
            ),
            ClientError::Remote(op, m) => "failed to "@ + verb(op) + " permissions: "@ + m@,
        }
    }

    /// The message reported for this error.
    pub fn message(&self) -> (r: String)
        ensures
            r@ == self.text(),
    {
        match self {
            ClientError::Connection(m) => String::from_str("Failed to connect: ").concat(m.as_str()),
            ClientError::ProxyCreation(m) => String::from_str("Failed to create proxy: ").concat(
                m.as_str(),
            ),
            ClientError::VersionRead(m) => String::from_str(
                "Failed to get server version: ",
            ).concat(m.as_str()),
            ClientError::VersionMismatch(found) => {
                let found_text = decimal(*found);
                let expected_text = decimal(PERMISSION_STORE_SPEC_VER);
                String::from_str("Server version ").concat(found_text.as_str()).concat(
                    " does not match expected version ",
                ).concat(expected_text.as_str())
            },
            ClientError::Remote(op, m) => String::from_str("failed to ").concat(
                verb_text(*op),
            ).concat(" permissions: ").concat(m.as_str()),
        }
    }
}

/// Where one invocation stands. It connects, builds the proxy, reads the
/// store's version, issues the one call of its command, and finishes.
pub enum Session {
    /// Waiting for the connection to the session bus; holds the pending call.
    Connecting(RemoteCall),
    /// Waiting for the proxy; holds the pending call.
    CreatingProxy(RemoteCall),
    /// Waiting for the store's version; holds the pending call.
    ReadingVersion(RemoteCall),
    /// The call was issued; waiting for its reply.
    Calling(Operation),
    /// Done: with a result shown when `true`, with an error reported when `false`.
    Finished(bool),
}

/// What the outside world reports back for the step that was asked for.
pub enum Event {
    /// The connection, or the proxy, is established.
    Ready,
    /// The store reported this protocol version.
    Version(u32),
    /// The issued call succeeded with this reply.
    Replied(Reply),
    /// The step asked for failed, with this message.
    Failed(String),
}

/// What the session asks of the outside world next.
pub enum Action {
    /// Build the proxy on the connection.
    CreateProxy,
    /// Read the store's `version` property.
    ReadVersion,
    /// Issue this call.
    Invoke(RemoteCall),
    /// Print this reply and finish successfully.
    Show(Reply),
    /// Report this error and finish with a failure.
    Report(ClientError),
}

/// Whether `reply` has the shape that a call of `op` answers with.
pub open spec fn fits(op: Operation, reply: Reply) -> bool {
    match op {
        Operation::Delete => reply is Deleted,
        Operation::Get => reply is Permissions,
        Operation::List => reply is ResourceIds,
        Operation::Lookup => reply is Lookup,
        Operation::SetPermissions => reply is Updated,
    }
}

/// Whether `reply` has the shape that a call of `op` answers with.
pub fn reply_fits(op: Operation, reply: &Reply) -> (r: bool)
    ensures
        r == fits(op, *reply),
{
    match op {
        Operation::Delete => matches!(reply, Reply::Deleted),
        Operation::Get => matches!(reply, Reply::Permissions(_)),
        Operation::List => matches!(reply, Reply::ResourceIds(_)),
        Operation::Lookup => matches!(reply, Reply::Lookup(_)),
        Operation::SetPermissions => matches!(reply, Reply::Updated),
    }
}

impl Session {
    /// The session of a command before anything was done.
    pub open spec fn initial(cmd: Subcommands) -> Session {
        Session::Connecting(dispatched(cmd))
    }

    /// Whether `ev` can answer what this session last asked for.
    pub open spec fn expects(self, ev: Event) -> bool {
        match self {
            Session::Connecting(_) => ev is Ready || ev is Failed,
            Session::CreatingProxy(_) => ev is Ready || ev is Failed,
            Session::ReadingVersion(_) => ev is Version || ev is Failed,
            Session::Calling(op) => (ev matches Event::Replied(r) && fits(op, r)) || ev is Failed,
            Session::Finished(_) => false,
        }
    }

    /// The next session and the action that an expected event leads to.
    pub open spec fn after(self, ev: Event) -> (Session, Action)
        recommends
            self.expects(ev),
    {
        match self {
            Session::Connecting(call) => match ev {
                Event::Failed(m) => (Session::Finished(false), Action::Report(ClientError::Connection(m))),
                _ => (Session::CreatingProxy(call), Action::CreateProxy),
            },
            Session::CreatingProxy(call) => match ev {
                Event::Failed(m) => (Session::Finished(false), Action::Report(ClientError::ProxyCreation(m))),
                _ => (Session::ReadingVersion(call), Action::ReadVersion),
            },
            Session::ReadingVersion(call) => match ev {
                Event::Version(v) => if v == PERMISSION_STORE_SPEC_VER {
                    (Session::Calling(call.operation_of()), Action::Invoke(call))
                } else {
                    (Session::Finished(false), Action::Report(ClientError::VersionMismatch(v)))
                },
                Event::Failed(m) => (Session::Finished(false), Action::Report(ClientError::VersionRead(m))),
                _ => arbitrary(),
            },
            Session::Calling(op) => match ev {
                Event::Replied(r) => (Session::Finished(true), Action::Show(r)),
                Event::Failed(m) => (Session::Finished(false), Action::Report(ClientError::Remote(op, m))),
                _ => arbitrary(),
            },
            Session::Finished(_) => arbitrary(),
        }
    }

    /// Starts the invocation of a command: the connection is to be made first.
    pub fn new(cmd: Subcommands) -> (r: Session)
        ensures
            r == Session::initial(cmd),
    {
        Session::Connecting(dispatch(cmd))
    }

    /// Whether `ev` can answer what this session last asked for.
    pub fn accepts(&self, ev: &Event) -> (r: bool)
        ensures
            r == self.expects(*ev),
    {
        match self {
            Session::Connecting(_) => matches!(ev, Event::Ready | Event::Failed(_)),
            Session::CreatingProxy(_) => matches!(ev, Event::Ready | Event::Failed(_)),
            Session::ReadingVersion(_) => matches!(ev, Event::Version(_) | Event::Failed(_)),
            Session::Calling(op) => match ev {
                Event::Replied(r) => reply_fits(*op, r),
                Event::Failed(_) => true,
                _ => false,
            },
            Session::Finished(_) => false,
        }
    }

    /// Takes in what the outside world reported and decides what comes next.
    /// The version gate stands here: only the expected protocol version lets
    /// the command's call be issued.
    pub fn step(self, ev: Event) -> (r: (Session, Action))
        requires
            self.expects(ev),
        ensures
            r == self.after(ev),
    {
        match self {
            Session::Connecting(call) => match ev {
                Event::Failed(m) => (Session::Finished(false), Action::Report(ClientError::Connection(m))),
                _ => (Session::CreatingProxy(call), Action::CreateProxy),
            },
            Session::CreatingProxy(call) => match ev {
                Event::Failed(m) => (Session::Finished(false), Action::Report(ClientError::ProxyCreation(m))),
                _ => (Session::ReadingVersion(call), Action::ReadVersion),
            },
            Session::ReadingVersion(call) => match ev {
                Event::Version(v) => if v == PERMISSION_STORE_SPEC_VER {
                    let op = call.operation();
                    (Session::Calling(op), Action::Invoke(call))
                } else {
                    (Session::Finished(false), Action::Report(ClientError::VersionMismatch(v)))
                },
                Event::Failed(m) => (Session::Finished(false), Action::Report(ClientError::VersionRead(m))),
                _ => (Session::Finished(false), Action::ReadVersion),
            },
            Session::Calling(op) => match ev {
                Event::Replied(r) => (Session::Finished(true), Action::Show(r)),
                Event::Failed(m) => (Session::Finished(false), Action::Report(ClientError::Remote(op, m))),
                _ => (Session::Finished(false), Action::ReadVersion),
            },
            Session::Finished(ok) => (Session::Finished(ok), Action::ReadVersion),
        }
    }
}

} // verus!
