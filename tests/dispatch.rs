use permstore::{
    delete_permission, dispatch, DeleteArgs, GetArgs, ListArgs, LookupArgs, Operation, RemoteCall,
    SetArgs, Subcommands,
};

fn s(x: &str) -> String {
    x.to_string()
}

#[test]
fn delete_with_app_removes_only_that_grant() {
    let call = delete_permission(DeleteArgs { table: s("devices"), id: s("camera"), app: Some(s("org.app.A")) });
    match call {
        RemoteCall::DeletePermission { table, id, app } => {
            assert_eq!(table, "devices");
            assert_eq!(id, "camera");
            assert_eq!(app, "org.app.A");
        }
        _ => panic!("delete with an app must call DeletePermission"),
    }
}

#[test]
fn delete_without_app_removes_the_resource() {
    let call = dispatch(Subcommands::Delete(DeleteArgs { table: s("devices"), id: s("camera"), app: None }));
    match call {
        RemoteCall::Delete { table, id } => {
            assert_eq!(table, "devices");
            assert_eq!(id, "camera");
        }
        _ => panic!("delete without an app must call Delete"),
    }
}

#[test]
fn get_calls_get_permission() {
    let call = dispatch(Subcommands::Get(GetArgs { table: s("t"), id: s("r"), app: s("a") }));
    assert!(matches!(&call, RemoteCall::GetPermission { table, id, app } if table == "t" && id == "r" && app == "a"));
    assert_eq!(call.operation(), Operation::Get);
}

#[test]
fn list_calls_list() {
    let call = dispatch(Subcommands::List(ListArgs { table: s("notifications") }));
    assert!(matches!(&call, RemoteCall::List { table } if table == "notifications"));
    assert_eq!(call.operation(), Operation::List);
}

#[test]
fn lookup_calls_lookup() {
    let call = dispatch(Subcommands::Lookup(LookupArgs { table: s("t"), id: s("r") }));
    assert!(matches!(&call, RemoteCall::Lookup { table, id } if table == "t" && id == "r"));
    assert_eq!(call.operation(), Operation::Lookup);
}

#[test]
fn set_calls_set_permission_with_all_arguments() {
    let call = dispatch(Subcommands::SetPermissions(SetArgs {
        create: true,
        table: s("t"),
        id: s("r"),
        app: s("a"),
        permissions: vec![s("read"), s("write")],
    }));
    match &call {
        RemoteCall::SetPermission { table, create, id, app, permissions } => {
            assert_eq!(table, "t");
            assert!(*create);
            assert_eq!(id, "r");
            assert_eq!(app, "a");
            assert_eq!(permissions, &vec![s("read"), s("write")]);
        }
        _ => panic!("set must call SetPermission"),
    }
    assert_eq!(call.operation(), Operation::SetPermissions);
}

#[test]
fn both_delete_shapes_are_the_delete_operation() {
    let a = dispatch(Subcommands::Delete(DeleteArgs { table: s("t"), id: s("r"), app: None }));
    let b = dispatch(Subcommands::Delete(DeleteArgs { table: s("t"), id: s("r"), app: Some(s("a")) }));
    assert_eq!(a.operation(), Operation::Delete);
    assert_eq!(b.operation(), Operation::Delete);
}
