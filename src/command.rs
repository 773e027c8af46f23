use vstd::prelude::*;

verus! {

/// Arguments of `delete <table> <id> [app]`.
pub struct DeleteArgs {
    pub table: String,
    pub id: String,
    pub app: Option<String>,
}

/// Arguments of `get <table> <id> <app>`.
pub struct GetArgs {
    pub table: String,
    pub id: String,
    pub app: String,
}

/// Arguments of `list <table>`.
pub struct ListArgs {
    pub table: String,
}

/// Arguments of `lookup <table> <id>`.
pub struct LookupArgs {
    pub table: String,
    pub id: String,
}

/// Arguments of `set [--create] <table> <id> <app> [permissions...]`.
pub struct SetArgs {
    pub create: bool,
    pub table: String,
    pub id: String,
    pub app: String,
    pub permissions: Vec<String>,
}

/// One parsed command of the command line.
pub enum Subcommands {
    Delete(DeleteArgs),
    Get(GetArgs),
    List(ListArgs),
    Lookup(LookupArgs),
    SetPermissions(SetArgs),
}

/// One call of a method of the remote permission store, with its arguments.
pub enum RemoteCall {
    /// `Delete(table, id)`: removes the whole resource.
    Delete { table: String, id: String },
    /// `DeletePermission(table, id, app)`: removes one application's grant.
    DeletePermission { table: String, id: String, app: String },
    /// `GetPermission(table, id, app)`.
    GetPermission { table: String, id: String, app: String },
    /// `List(table)`.
    List { table: String },
    /// `Lookup(table, id)`.
    Lookup { table: String, id: String },
    /// `SetPermission(table, create, id, app, permissions)`.
    SetPermission {
        table: String,
        create: bool,
        id: String,
        app: String,
        permissions: Vec<String>,
    },
}

/// The user-facing operation a command performs; it names the command in
/// messages and fixes the shape of the reply that is expected.
#[derive(Clone, Copy, Debug, PartialEq, Eq, Structural)]
pub enum Operation {
    Delete,
    Get,
    List,
    Lookup,
    SetPermissions,
}

impl RemoteCall {
    pub open spec fn operation_of(self) -> Operation {
        match self {
            RemoteCall::Delete { .. } => Operation::Delete,
            RemoteCall::DeletePermission { .. } => Operation::Delete,
            RemoteCall::GetPermission { .. } => Operation::Get,
            RemoteCall::List { .. } => Operation::List,
            RemoteCall::Lookup { .. } => Operation::Lookup,
            RemoteCall::SetPermission { .. } => Operation::SetPermissions,
        }
    }

    /// The operation that this call carries out.
    pub fn operation(&self) -> (r: Operation)
        ensures
            r == self.operation_of(),
    {
        match self {
            RemoteCall::Delete { .. } => Operation::Delete,
            RemoteCall::DeletePermission { .. } => Operation::Delete,
            RemoteCall::GetPermission { .. } => Operation::Get,
            RemoteCall::List { .. } => Operation::List,
            RemoteCall::Lookup { .. } => Operation::Lookup,
            RemoteCall::SetPermission { .. } => Operation::SetPermissions,
        }
    }
}

/// The remote call that each command stands for:
///
/// | command | call |
/// |---|---|
/// | delete with an app | `DeletePermission` |
/// | delete without one | `Delete` |
/// | get | `GetPermission` |
/// | list | `List` |
/// | lookup | `Lookup` |
/// | set | `SetPermission` |
pub open spec fn dispatched(cmd: Subcommands) -> RemoteCall {
    match cmd {
        Subcommands::Delete(a) => match a.app {
            Option::Some(app) => RemoteCall::DeletePermission { table: a.table, id: a.id, app },
            Option::None => RemoteCall::Delete { table: a.table, id: a.id },
        },
        Subcommands::Get(a) => RemoteCall::GetPermission { table: a.table, id: a.id, app: a.app },
        Subcommands::List(a) => RemoteCall::List { table: a.table },
        Subcommands::Lookup(a) => RemoteCall::Lookup { table: a.table, id: a.id },
        Subcommands::SetPermissions(a) => RemoteCall::SetPermission {
            table: a.table,
            create: a.create,
            id: a.id,
            app: a.app,
            permissions: a.permissions,
        },
    }
}

/// The call behind `delete`: the per-application delete when an application
/// is named, the whole-resource delete otherwise.
pub fn delete_permission(args: DeleteArgs) -> (r: RemoteCall)
    ensures
        r == dispatched(Subcommands::Delete(args)),
        args.app is Some ==> r is DeletePermission,
        args.app is None ==> r is Delete,
{
    match args.app {
        Some(app) => RemoteCall::DeletePermission { table: args.table, id: args.id, app },
        None => RemoteCall::Delete { table: args.table, id: args.id },
    }
}

/// Selects the one remote call that a command stands for.
pub fn dispatch(cmd: Subcommands) -> (r: RemoteCall)
    ensures
        r == dispatched(cmd),
{
    match cmd {
        Subcommands::Delete(a) => delete_permission(a),
        Subcommands::Get(a) => RemoteCall::GetPermission { table: a.table, id: a.id, app: a.app },
        Subcommands::List(a) => RemoteCall::List { table: a.table },
        Subcommands::Lookup(a) => RemoteCall::Lookup { table: a.table, id: a.id },
        Subcommands::SetPermissions(a) => RemoteCall::SetPermission {
            table: a.table,
            create: a.create,
            id: a.id,
            app: a.app,
            permissions: a.permissions,
        },
    }
}

/// The delete command never reaches the call of the other shape: with an
/// application it removes only that application's grant, without one the
/// whole resource, and every other command maps to a call of its own kind.
pub proof fn lemma_dispatch_selects_one_call(cmd: Subcommands)
    ensures
        cmd matches Subcommands::Delete(a) && a.app is Some ==> dispatched(cmd) is DeletePermission
            && dispatched(cmd) !is Delete,
        cmd matches Subcommands::Delete(a) && a.app is None ==> dispatched(cmd) is Delete
            && dispatched(cmd) !is DeletePermission,
        cmd is Get <==> dispatched(cmd) is GetPermission,
        cmd is List <==> dispatched(cmd) is List,
        cmd is Lookup <==> dispatched(cmd) is Lookup,
        cmd is SetPermissions <==> dispatched(cmd) is SetPermission,
{
}

} // verus!
