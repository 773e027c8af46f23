//! Client logic for a desktop permission-store service: the command dispatch
//! table, the protocol version gate, the invocation state machine and the
//! rendering of replies as text tables.

mod command;
mod render;
mod runs;
mod session;
mod text;

pub use command::{
    delete_permission, dispatch, lemma_dispatch_selects_one_call, DeleteArgs, GetArgs, ListArgs,
    LookupArgs, Operation, RemoteCall, SetArgs, Subcommands,
};
pub use render::{
    lemma_render_deterministic, render, render_get_permission_response, render_list_response,
    render_lookup_response, LookupResponse, Reply,
};
pub use runs::{
    accepted, issues_no_call, issues_only, lemma_failed_call_shows_nothing,
    lemma_run_issues_dispatched_call, lemma_version_gate, run,
};
pub use session::{reply_fits, Action, ClientError, Event, Session, PERMISSION_STORE_SPEC_VER};
pub use text::{decimal, join_commas};
