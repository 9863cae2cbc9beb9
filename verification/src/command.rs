use vstd::prelude::*;
use crate::event::{MembershipChange, MembershipChangeView};

verus! {

/// Registers the node `$1` with the coordinator.
pub const SQL_ADD_NODE: &'static str = "SELECT master_add_node($1, 5432)";

/// Deletes the data placements of the group that the node `$1` belongs to.
pub const SQL_DELETE_PLACEMENTS: &'static str =
    "DELETE FROM pg_dist_placement WHERE groupid = (SELECT groupid FROM pg_dist_node WHERE nodename=$1 AND nodeport=5432 LIMIT 1)";

/// Removes the node `$1` from the coordinator's registry.
pub const SQL_REMOVE_NODE: &'static str = "SELECT master_remove_node($1, 5432)";

/// The statements that the reconciler sends to the coordinator.
#[derive(Clone, Copy, Debug, PartialEq, Eq, Structural)]
pub enum StatementKind {
    AddNode,
    DeletePlacements,
    RemoveNode,
}

/// One parameterized statement: its kind and the worker's host name, which
/// is the statement's only parameter.
#[derive(Debug, PartialEq, Eq)]
pub struct Statement {
    pub kind: StatementKind,
    pub host: String,
}

/// What is sent to the coordinator for one membership change: statements to
/// run in order, either each on its own or all in one transaction that
/// commits only if every statement succeeds.
#[derive(Debug, PartialEq, Eq)]
pub struct DbCommand {
    pub transactional: bool,
    pub statements: Vec<Statement>,
}

/// What a statement is, with the host name as a sequence of characters.
pub struct StatementView {
    pub kind: StatementKind,
    pub host: Seq<char>,
}

/// What a command is, with its statements as a sequence of their views.
pub struct DbCommandView {
    pub transactional: bool,
    pub statements: Seq<StatementView>,
}

impl View for Statement {
    type V = StatementView;

    open spec fn view(&self) -> StatementView {
        StatementView { kind: self.kind, host: self.host@ }
    }
}

impl View for DbCommand {
    type V = DbCommandView;

    open spec fn view(&self) -> DbCommandView {
        DbCommandView {
            transactional: self.transactional,
            statements: self.statements@.map_values(|statement: Statement| statement@),
        }
    }
}

impl StatementKind {
    /// The text of a statement of this kind.
    pub open spec fn sql_text(self) -> Seq<char> {
        match self {
            StatementKind::AddNode => SQL_ADD_NODE@,
            StatementKind::DeletePlacements => SQL_DELETE_PLACEMENTS@,
            StatementKind::RemoveNode => SQL_REMOVE_NODE@,
        }
    }

    /// The text of a statement of this kind, with `$1` for the host name.
    pub fn sql(&self) -> (text: &'static str)
        ensures
            text@ == self.sql_text(),
    {
        match self {
            StatementKind::AddNode => SQL_ADD_NODE,
            StatementKind::DeletePlacements => SQL_DELETE_PLACEMENTS,
            StatementKind::RemoveNode => SQL_REMOVE_NODE,
        }
    }
}

/// The registration of `host`: one statement, on its own.
pub open spec fn add_worker_spec(host: Seq<char>) -> DbCommandView {
    DbCommandView {
        transactional: false,
        statements: seq![StatementView { kind: StatementKind::AddNode, host }],
    }
}

/// The eviction of `host`: its placements are deleted, then the node is
/// removed, both in one transaction.
pub open spec fn remove_worker_spec(host: Seq<char>) -> DbCommandView {
    DbCommandView {
        transactional: true,
        statements: seq![
            StatementView { kind: StatementKind::DeletePlacements, host },
            StatementView { kind: StatementKind::RemoveNode, host },
        ],
    }
}

/// The command that a membership change calls for, if any.
pub open spec fn command_for_spec(change: MembershipChangeView) -> Option<DbCommandView> {
    match change {
        MembershipChangeView::Add(host) => Some(add_worker_spec(host)),
        MembershipChangeView::Remove(host) => Some(remove_worker_spec(host)),
        MembershipChangeView::Ignore => None,
    }
}

/// The command that registers the worker `host`.
pub fn add_worker(host: &str) -> (command: DbCommand)
    ensures
        command@ == add_worker_spec(host@),
{
    let mut statements: Vec<Statement> = Vec::new();
    statements.push(Statement { kind: StatementKind::AddNode, host: host.to_owned() });
    let command = DbCommand { transactional: false, statements };
    assert(command@.statements =~= add_worker_spec(host@).statements);
    command
}

/// The command that evicts the worker `host`.
pub fn remove_worker(host: &str) -> (command: DbCommand)
    ensures
        command@ == remove_worker_spec(host@),
{
    let mut statements: Vec<Statement> = Vec::new();
    statements.push(Statement { kind: StatementKind::DeletePlacements, host: host.to_owned() });
    statements.push(Statement { kind: StatementKind::RemoveNode, host: host.to_owned() });
    let command = DbCommand { transactional: true, statements };
    assert(command@.statements =~= remove_worker_spec(host@).statements);
    command
}

/// The command that `change` calls for: none where it is to be ignored.
pub fn command_for(change: &MembershipChange) -> (command: Option<DbCommand>)
    ensures
        match command {
            Some(command) => command_for_spec(change@) == Some(command@),
            None => command_for_spec(change@) is None,
        },
{
    match change {
        MembershipChange::Add(host) => Some(add_worker(host.as_str())),
        MembershipChange::Remove(host) => Some(remove_worker(host.as_str())),
        MembershipChange::Ignore => None,
    }
}

/// No node is removed while it may still own placements: in every command
/// that a membership change calls for, a statement that removes a node
/// stands in a transaction, directly after the statement that deletes the
/// placements of that same node, so that both take effect together or not
/// at all.
pub proof fn law_removal_clears_placements_first(change: MembershipChangeView, i: int)
    requires
        command_for_spec(change) is Some,
        0 <= i < command_for_spec(change)->0.statements.len(),
        command_for_spec(change)->0.statements[i].kind is RemoveNode,
    ensures
        command_for_spec(change)->0.transactional,
        i > 0,
        command_for_spec(change)->0.statements[i - 1] == (StatementView {
            kind: StatementKind::DeletePlacements,
            host: command_for_spec(change)->0.statements[i].host,
        }),
{
}

} // verus!
