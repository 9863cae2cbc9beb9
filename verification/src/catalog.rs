use vstd::prelude::*;
use crate::command::{remove_worker_spec, DbCommandView, StatementKind, StatementView};

verus! {

/// A model of the coordinator's catalog, as far as membership goes: which
/// workers are registered, and which groups own data placements. It says
/// what the three statements are understood to do, so that what a command
/// leaves behind can be stated. Every node of the model stands under the
/// one fixed port, so that a host name identifies it.
pub struct Catalog {
    /// The group of each registered node, by the node's host name.
    pub nodes: Map<Seq<char>, int>,
    /// The group that owns each data placement, by the placement's id.
    pub placements: Map<int, int>,
}

impl Catalog {
    /// Whether some placement belongs to `group`.
    pub open spec fn owns_placements(self, group: int) -> bool {
        exists|id: int| self.placements.contains_key(id) && self.placements[id] == group
    }

    /// A group that no node has.
    pub open spec fn unused_group(self) -> int {
        choose|group: int| !self.nodes.values().contains(group)
    }

    /// The catalog after the registration of `host`: a node that is already
    /// there stays as it is.
    pub open spec fn with_node(self, host: Seq<char>) -> Catalog {
        if self.nodes.contains_key(host) {
            self
        } else {
            Catalog {
                nodes: self.nodes.insert(host, self.unused_group()),
                placements: self.placements,
            }
        }
    }

    /// The catalog after the placements of the group of `host` are deleted:
    /// where no such node is registered, no row is touched.
    pub open spec fn without_placements_of(self, host: Seq<char>) -> Catalog {
        if self.nodes.contains_key(host) {
            Catalog {
                nodes: self.nodes,
                placements: Map::new(
                    |id: int|
                        self.placements.contains_key(id) && self.placements[id]
                            != self.nodes[host],
                    |id: int| self.placements[id],
                ),
            }
        } else {
            self
        }
    }

    /// The catalog after the removal of the node `host`, or `None` where
    /// the coordinator refuses it: a node that still owns placements cannot
    /// be removed. Where no such node is registered, nothing changes.
    pub open spec fn without_node(self, host: Seq<char>) -> Option<Catalog> {
        if !self.nodes.contains_key(host) {
            Some(self)
        } else if self.owns_placements(self.nodes[host]) {
            None
        } else {
            Some(Catalog { nodes: self.nodes.remove(host), placements: self.placements })
        }
    }

    /// The catalog after one statement, or `None` where it is refused.
    pub open spec fn after(self, statement: StatementView) -> Option<Catalog> {
        match statement.kind {
            StatementKind::AddNode => Some(self.with_node(statement.host)),
            StatementKind::DeletePlacements => Some(self.without_placements_of(statement.host)),
            StatementKind::RemoveNode => self.without_node(statement.host),
        }
    }

    /// The catalog after all the statements in order, or `None` where one
    /// of them is refused.
    pub open spec fn after_all(self, statements: Seq<StatementView>) -> Option<Catalog>
        decreases statements.len(),
    {
        if statements.len() == 0 {
            Some(self)
        } else {
            match self.after(statements[0]) {
                Some(next) => next.after_all(statements.drop_first()),
                None => None,
            }
        }
    }

    /// The catalog after the statements one by one, up to the first that is
    /// refused: what came before it stays.
    pub open spec fn after_each(self, statements: Seq<StatementView>) -> Catalog
        decreases statements.len(),
    {
        if statements.len() == 0 {
            self
        } else {
            match self.after(statements[0]) {
                Some(next) => next.after_each(statements.drop_first()),
                None => self,
            }
        }
    }

    /// The catalog after a command. A transaction takes effect as a whole
    /// or, where one of its statements is refused, not at all.
    pub open spec fn after_command(self, command: DbCommandView) -> Catalog {
        if command.transactional {
            match self.after_all(command.statements) {
                Some(committed) => committed,
                None => self,
            }
        } else {
            self.after_each(command.statements)
        }
    }
}

/// The removal of a node that still owns placements is refused: this is why
/// an eviction deletes the placements first.
pub proof fn law_removal_alone_is_refused(catalog: Catalog, host: Seq<char>)
    requires
        catalog.nodes.contains_key(host),
        catalog.owns_placements(catalog.nodes[host]),
    ensures
        catalog.after(StatementView { kind: StatementKind::RemoveNode, host }) is None,
{
}

/// An eviction is never refused, and it leaves no placement behind that
/// refers to the evicted node: afterwards the node is gone, its group owns
/// no placement, and no other node and no placement of another group has
/// been touched.
pub proof fn law_eviction_leaves_no_placement(catalog: Catalog, host: Seq<char>)
    ensures
        catalog.after_all(remove_worker_spec(host).statements) == Some(
            catalog.after_command(remove_worker_spec(host)),
        ),
        catalog.after_command(remove_worker_spec(host)).nodes == catalog.nodes.remove(host),
        catalog.nodes.contains_key(host) ==> !catalog.after_command(
            remove_worker_spec(host),
        ).owns_placements(catalog.nodes[host]),
        forall|id: int|
            catalog.after_command(remove_worker_spec(host)).placements.contains_key(id) <==> (
            #[trigger] catalog.placements.contains_key(id) && !(catalog.nodes.contains_key(host)
                && catalog.placements[id] == catalog.nodes[host])),
        forall|id: int|
            #[trigger] catalog.after_command(remove_worker_spec(host)).placements.contains_key(id)
                ==> catalog.after_command(remove_worker_spec(host)).placements[id]
                == catalog.placements[id],
{
    let statements = remove_worker_spec(host).statements;
    let cleared = catalog.without_placements_of(host);
    assert(statements.drop_first() =~= seq![
        StatementView { kind: StatementKind::RemoveNode, host },
    ]);
    assert(statements.drop_first().drop_first() =~= Seq::<StatementView>::empty());
    assert(statements[0] == StatementView { kind: StatementKind::DeletePlacements, host });
    assert(statements.drop_first()[0] == StatementView { kind: StatementKind::RemoveNode, host });
    reveal_with_fuel(Catalog::after_all, 3);
    if catalog.nodes.contains_key(host) {
        assert(!cleared.owns_placements(cleared.nodes[host]));
        assert(catalog.after_all(statements) == cleared.without_node(host));
    } else {
        assert(catalog.nodes.remove(host) =~= catalog.nodes);
    }
}

/// The eviction of a worker that is not registered changes nothing: no row
/// is touched, and nothing is refused.
pub proof fn law_evicting_the_unregistered_changes_nothing(catalog: Catalog, host: Seq<char>)
    requires
        !catalog.nodes.contains_key(host),
    ensures
        catalog.after_all(remove_worker_spec(host).statements) == Some(catalog),
        catalog.after_command(remove_worker_spec(host)) == catalog,
{
    law_eviction_leaves_no_placement(catalog, host);
    let statements = remove_worker_spec(host).statements;
    assert(statements.drop_first() =~= seq![
        StatementView { kind: StatementKind::RemoveNode, host },
    ]);
    assert(statements.drop_first().drop_first() =~= Seq::<StatementView>::empty());
    reveal_with_fuel(Catalog::after_all, 3);
}

} // verus!
