//! Workspaces: a name bound to a replicated namespace and recorded in the
//! relational store. Creating or joining one alternates calls into the two
//! stores with decisions; the decisions are the state machine below, and
//! whoever drives it performs each action and reports what came back.
use vstd::prelude::*;
use crate::error::Error;
use crate::error::concat_lit;
use crate::identity::NamespaceId;
use crate::identity::WorkspacePublicKey;
use crate::identity::hex_text;
use crate::identity::debug_str;
use crate::identity::debug_string;
use crate::identity::signed_decimal;
use crate::identity::signed_text;

verus! {

/// A workspace as the relational store records it.
#[derive(Clone, Debug, PartialEq, Eq)]
pub struct Model {
    /// Assigned by the store.
    pub id: i64,
    /// The public key of the backing namespace.
    pub public_key: WorkspacePublicKey,
    /// Chosen by the user; not unique.
    pub name: String,
}

/// A credential that lets a peer locate and replicate a namespace.
#[derive(Clone, Debug, PartialEq, Eq)]
pub struct DocTicket {
    /// The namespace to replicate.
    pub namespace: NamespaceId,
    /// Addresses of peers that hold it.
    pub nodes: Vec<String>,
}

/// Where a create or join stands.
#[derive(Clone, Debug, PartialEq, Eq)]
pub enum Phase {
    /// A new namespace was asked for.
    Creating { name: String },
    /// The namespace of a ticket was asked to open.
    Joining { name: String, namespace: NamespaceId },
    /// The namespace exists; its row was asked to be written.
    Persisting { name: String, public_key: WorkspacePublicKey },
    /// The operation has its result.
    Finished,
}

/// What came back from the last action.
#[derive(Clone, Debug, PartialEq, Eq)]
pub enum Event {
    /// The document subsystem created a namespace with this identifier.
    NamespaceCreated(NamespaceId),
    /// The document subsystem opened the namespace that was asked for.
    NamespaceOpened,
    /// The document subsystem does not know the namespace that was asked for.
    NamespaceMissing,
    /// The document subsystem failed, with its message.
    NamespaceFailed(String),
    /// The store wrote the row and assigned it this id.
    RowInserted(i64),
    /// The store failed, with its message.
    StoreFailed(String),
}

/// What the driver must do next.
#[derive(Debug, PartialEq, Eq)]
pub enum Action {
    /// Create a new namespace.
    CreateNamespace,
    /// Open (replicate) the namespace with this identifier.
    OpenNamespace(NamespaceId),
    /// Insert a workspace row with these values.
    InsertRow { public_key: WorkspacePublicKey, name: String },
    /// Stop: the operation returns this.
    Complete(Result<Model, Error>),
}

/// The message of a namespace that the document subsystem does not know.
pub open spec fn missing_namespace_text(namespace: NamespaceId) -> Seq<char> {
    "namespace "@ + hex_text(namespace.bytes@) + " not found"@
}

/// The message of a namespace that the document subsystem does not know.
pub fn missing_namespace_message(namespace: &NamespaceId) -> (r: String)
    ensures
        r@ == missing_namespace_text(*namespace),
{
    let key = namespace.public_key().to_hex();
    let mut s = concat_lit("namespace ", key.as_str());
    s.append(" not found");
    proof {
        reveal_strlit("namespace ");
        reveal_strlit(" not found");
        assert(s@ =~= missing_namespace_text(*namespace));
    }
    s
}

/// Whether `event` can answer the action that led to `phase`.
pub open spec fn accepts_spec(phase: Phase, event: Event) -> bool {
    match phase {
        Phase::Creating { .. } => event is NamespaceCreated || event is NamespaceFailed,
        Phase::Joining { .. } => event is NamespaceOpened || event is NamespaceMissing
            || event is NamespaceFailed,
        Phase::Persisting { .. } => event is RowInserted || event is StoreFailed,
        Phase::Finished => false,
    }
}

/// `next` and `action` are what follows `event` in `phase`.
pub open spec fn step_result(phase: Phase, event: Event, next: Phase, action: Action) -> bool {
    match (phase, event) {
        (Phase::Creating { name }, Event::NamespaceCreated(id)) => {
            &&& next == Phase::Persisting { name, public_key: WorkspacePublicKey { bytes: id.bytes } }
            &&& action == Action::InsertRow {
                public_key: WorkspacePublicKey { bytes: id.bytes },
                name,
            }
        },
        (Phase::Joining { name, namespace }, Event::NamespaceOpened) => {
            &&& next == Phase::Persisting {
                name,
                public_key: WorkspacePublicKey { bytes: namespace.bytes },
            }
            &&& action == Action::InsertRow {
                public_key: WorkspacePublicKey { bytes: namespace.bytes },
                name,
            }
        },
        (Phase::Joining { namespace, .. }, Event::NamespaceMissing) => {
            &&& next == Phase::Finished
            &&& action matches Action::Complete(Err(Error::Docs(m)))
            &&& m@ == missing_namespace_text(namespace)
        },
        (Phase::Persisting { name, public_key }, Event::RowInserted(id)) => {
            &&& next == Phase::Finished
            &&& action == Action::Complete(Ok(Model { id, public_key, name }))
        },
        (Phase::Persisting { .. }, Event::StoreFailed(m)) => {
            &&& next == Phase::Finished
            &&& action == Action::Complete(Err(Error::Database(m)))
        },
        (_, Event::NamespaceFailed(m)) => {
            &&& next == Phase::Finished
            &&& action == Action::Complete(Err(Error::Docs(m)))
        },
        _ => false,
    }
}

/// Starts creating a workspace named `name`: first a new namespace.
pub fn start_create(name: String) -> (r: (Phase, Action))
    ensures
        r == (Phase::Creating { name }, Action::CreateNamespace),
{
    (Phase::Creating { name }, Action::CreateNamespace)
}

/// Starts joining the namespace of `ticket` as a workspace named `name`:
/// first the namespace is opened.
pub fn start_join(name: String, ticket: &DocTicket) -> (r: (Phase, Action))
    ensures
        r == (Phase::Joining { name, namespace: ticket.namespace }, Action::OpenNamespace(
            ticket.namespace,
        )),
{
    let namespace = ticket.namespace;
    (Phase::Joining { name, namespace }, Action::OpenNamespace(namespace))
}

/// Whether `event` can answer the action that led to `phase`.
pub fn accepts(phase: &Phase, event: &Event) -> (r: bool)
    ensures
        r == accepts_spec(*phase, *event),
{
    match phase {
        Phase::Creating { .. } => match event {
            Event::NamespaceCreated(_) | Event::NamespaceFailed(_) => true,
            _ => false,
        },
        Phase::Joining { .. } => match event {
            Event::NamespaceOpened | Event::NamespaceMissing | Event::NamespaceFailed(_) => true,
            _ => false,
        },
        Phase::Persisting { .. } => match event {
            Event::RowInserted(_) | Event::StoreFailed(_) => true,
            _ => false,
        },
        Phase::Finished => false,
    }
}

/// Moves a create or join on by one event. The namespace always comes
/// before the row: a row is written only for a namespace that was created
/// or opened, and a failure of the document subsystem ends the operation
/// with a `Docs` error before anything is written.
pub fn step(phase: Phase, event: Event) -> (r: (Phase, Action))
    requires
        accepts_spec(phase, event),
    ensures
        step_result(phase, event, r.0, r.1),
{
    match phase {
        Phase::Creating { name } => match event {
            Event::NamespaceCreated(id) => {
                let public_key = id.public_key();
                assert(public_key.bytes =~= id.bytes);
                (Phase::Persisting { name: name.clone(), public_key }, Action::InsertRow { public_key, name })
            },
            Event::NamespaceFailed(m) => (Phase::Finished, Action::Complete(Err(Error::Docs(m)))),
            _ => unreached(),
        },
        Phase::Joining { name, namespace } => match event {
            Event::NamespaceOpened => {
                let public_key = namespace.public_key();
                assert(public_key.bytes =~= namespace.bytes);
                (Phase::Persisting { name: name.clone(), public_key }, Action::InsertRow { public_key, name })
            },
            Event::NamespaceMissing => {
                let m = missing_namespace_message(&namespace);
                (Phase::Finished, Action::Complete(Err(Error::Docs(m))))
            },
            Event::NamespaceFailed(m) => (Phase::Finished, Action::Complete(Err(Error::Docs(m)))),
            _ => unreached(),
        },
        Phase::Persisting { name, public_key } => match event {
            Event::RowInserted(id) => (
                Phase::Finished,
                Action::Complete(Ok(Model { id, public_key, name })),
            ),
            Event::StoreFailed(m) => (Phase::Finished, Action::Complete(Err(Error::Database(m)))),
            _ => unreached(),
        },
        Phase::Finished => unreached(),
    }
}

impl Model {
    /// The namespace that backs this workspace.
    pub fn namespace_id(&self) -> (r: NamespaceId)
        ensures
            r.bytes@ == self.public_key.bytes@,
    {
        self.public_key.namespace_id()
    }

    /// A ticket for this workspace's namespace, with the peers that hold it.
    pub fn ticket(&self, nodes: Vec<String>) -> (r: DocTicket)
        ensures
            r.namespace.bytes == self.public_key.bytes,
            r.nodes == nodes,
    {
        let namespace = self.namespace_id();
        assert(namespace.bytes =~= self.public_key.bytes);
        DocTicket { namespace, nodes }
    }

    /// The result of a lookup by id or by name, from what the store
    /// answered: absence is no error, a failure of the store is a
    /// `Database` error with the store's message.
    pub fn from_lookup(answer: Result<Option<Model>, String>) -> (r: Result<Option<Model>, Error>)
        ensures
            r == (match answer {
                Ok(found) => Ok(found),
                Err(m) => Err(Error::Database(m)),
            }),
    {
        match answer {
            Ok(found) => Ok(found),
            Err(m) => Err(Error::Database(m)),
        }
    }

    /// The form in which `{:?}` writes the workspace.
    pub open spec fn debug_text(&self) -> Seq<char> {
        "Model { id: "@ + signed_text(self.id as int) + ", public_key: "@ + self.public_key.debug_text()
            + ", name: "@ + debug_str(self.name@) + " }"@
    }

    /// The form in which `{:?}` writes the workspace.
    pub fn debug(&self) -> (r: String)
        ensures
            r@ == self.debug_text(),
    {
        let id = signed_decimal(self.id);
        let key = self.public_key.debug();
        let name = debug_string(self.name.as_str());
        let mut s = String::from_str("Model { id: ");
        s.append(id.as_str());
        s.append(", public_key: ");
        s.append(key.as_str());
        s.append(", name: ");
        s.append(name.as_str());
        s.append(" }");
        proof {
            reveal_strlit("Model { id: ");
            reveal_strlit(", public_key: ");
            reveal_strlit(", name: ");
            reveal_strlit(" }");
            assert(s@ =~= self.debug_text());
        }
        s
    }

    /// The message of a namespace that the document subsystem did not find.
    pub open spec fn doc_missing_text(&self) -> Seq<char> {
        "Failed to get doc "@ + self.debug_text() + " from DocsAPI"@
    }

    /// The result of opening this workspace's namespace, from what the
    /// document subsystem answered: `Ok(true)` when it opened it,
    /// `Ok(false)` when it does not know it, `Err` with its message when
    /// it failed. Both failures are `Docs` errors; the first names the
    /// workspace.
    pub fn doc_outcome(&self, answer: Result<bool, String>) -> (r: Result<(), Error>)
        ensures
            answer == Ok::<bool, String>(true) ==> r == Ok::<(), Error>(()),
            answer == Ok::<bool, String>(false) ==> (r matches Err(Error::Docs(m))
                && m@ == self.doc_missing_text()),
            answer matches Err(m) ==> r == Err::<(), Error>(Error::Docs(m)),
    {
        match answer {
            Ok(true) => Ok(()),
            Ok(false) => {
                let d = self.debug();
                let mut s = concat_lit("Failed to get doc ", d.as_str());
                s.append(" from DocsAPI");
                proof {
                    reveal_strlit("Failed to get doc ");
                    reveal_strlit(" from DocsAPI");
                    assert(s@ =~= self.doc_missing_text());
                }
                Err(Error::Docs(s))
            },
            Err(m) => Err(Error::Docs(m)),
        }
    }
}

/// The first row named `name`, which a lookup by name finds.
pub open spec fn first_named(rows: Seq<Model>, name: Seq<char>) -> Option<Model>
    decreases rows.len(),
{
    if rows.len() == 0 {
        None
    } else if rows[0].name@ == name {
        Some(rows[0])
    } else {
        first_named(rows.drop_first(), name)
    }
}

/// The table once the store has carried out `action`, giving a new row the
/// id `id`: only an insert writes.
pub open spec fn table_after(rows: Seq<Model>, action: Action, id: i64) -> Seq<Model> {
    match action {
        Action::InsertRow { public_key, name } => rows.push(Model { id, public_key, name }),
        _ => rows,
    }
}

/// A row is written only right after its namespace was created or opened:
/// no other phase and event lead to an insert.
pub proof fn lemma_insert_only_after_namespace(phase: Phase, event: Event, next: Phase, action: Action)
    requires
        step_result(phase, event, next, action),
        action is InsertRow,
    ensures
        (phase is Creating && event is NamespaceCreated) || (phase is Joining
            && event is NamespaceOpened),
{
}

/// When creating the namespace fails, the create ends with a `Docs` error
/// carrying the failure's message, and the table is left as it was: neither
/// the first action nor the last writes, and nothing follows the last.
pub proof fn lemma_failed_namespace_writes_nothing(
    rows: Seq<Model>,
    name: String,
    message: String,
    next: Phase,
    action: Action,
)
    requires
        step_result(Phase::Creating { name }, Event::NamespaceFailed(message), next, action),
    ensures
        action == Action::Complete(Err(Error::Docs(message))),
        next == Phase::Finished,
        forall|e: Event| !accepts_spec(next, e),
        forall|id0: i64, id1: i64|
            table_after(table_after(rows, Action::CreateNamespace, id0), action, id1) == rows,
{
}

/// A finished create of `name` on a table with no row named `name`: the
/// lookup by that name in the table that the insert left finds the
/// workspace that the create returned.
pub proof fn lemma_create_then_get_by_name(
    rows: Seq<Model>,
    name: String,
    namespace: NamespaceId,
    id: i64,
    p1: Phase,
    a1: Action,
    p2: Phase,
    a2: Action,
)
    requires
        forall|i: int| 0 <= i < rows.len() ==> rows[i].name@ != name@,
        step_result(Phase::Creating { name }, Event::NamespaceCreated(namespace), p1, a1),
        step_result(p1, Event::RowInserted(id), p2, a2),
    ensures
        a2 matches Action::Complete(Ok(w)) && w.name == name && w.id == id
            && first_named(table_after(rows, a1, id), name@) == Some(w),
    decreases rows.len(),
{
    let w = a2->Complete_0->Ok_0;
    assert(table_after(rows, a1, id) == rows.push(w));
    if rows.len() > 0 {
        assert(rows.push(w).drop_first() =~= rows.drop_first().push(w));
        lemma_create_then_get_by_name(rows.drop_first(), name, namespace, id, p1, a1, p2, a2);
    } else {
        assert(rows.push(w)[0] == w);
    }
}

/// Joining with a ticket made from a workspace yields a workspace with the
/// same public key.
pub proof fn lemma_join_keeps_identity(
    original: Model,
    ticket: DocTicket,
    name: String,
    id: i64,
    p1: Phase,
    a1: Action,
    p2: Phase,
    a2: Action,
)
    requires
        ticket.namespace.bytes == original.public_key.bytes,
        step_result(Phase::Joining { name, namespace: ticket.namespace }, Event::NamespaceOpened, p1, a1),
        step_result(p1, Event::RowInserted(id), p2, a2),
    ensures
        a2 matches Action::Complete(Ok(w)) && w.public_key == original.public_key && w.name == name,
{
}

/// Two creates with the same name, in either order: nothing checks the
/// name, so both succeed and both rows stand in the table. Given distinct
/// namespaces and distinct row ids from the stores, the two workspaces
/// differ in both.
pub proof fn lemma_same_name_creates_twice(
    rows: Seq<Model>,
    name: String,
    ns1: NamespaceId,
    ns2: NamespaceId,
    id1: i64,
    id2: i64,
    p1: Phase,
    a1: Action,
    q1: Phase,
    b1: Action,
    p2: Phase,
    a2: Action,
    q2: Phase,
    b2: Action,
)
    requires
        step_result(Phase::Creating { name }, Event::NamespaceCreated(ns1), p1, a1),
        step_result(p1, Event::RowInserted(id1), q1, b1),
        step_result(Phase::Creating { name }, Event::NamespaceCreated(ns2), p2, a2),
        step_result(p2, Event::RowInserted(id2), q2, b2),
    ensures
        b1 matches Action::Complete(Ok(w1)) && b2 matches Action::Complete(Ok(w2)) && w1.name == name
            && w2.name == name && table_after(table_after(rows, a1, id1), a2, id2) == rows.push(
            w1,
        ).push(w2) && table_after(table_after(rows, a2, id2), a1, id1) == rows.push(w2).push(w1)
            && (ns1 != ns2 ==> w1.public_key != w2.public_key) && (id1 != id2 ==> w1.id != w2.id),
{
}

} // verus!
