use caretta_framework::error::Error;
use caretta_framework::identity::NamespaceId;
use caretta_framework::identity::WorkspacePublicKey;
use caretta_framework::workspace::accepts;
use caretta_framework::workspace::missing_namespace_message;
use caretta_framework::workspace::start_create;
use caretta_framework::workspace::start_join;
use caretta_framework::workspace::step;
use caretta_framework::workspace::Action;
use caretta_framework::workspace::Event;
use caretta_framework::workspace::Model;
use caretta_framework::workspace::Phase;

/// A relational table and a document store, enough to drive the lifecycle.
struct Stores {
    rows: Vec<Model>,
    next_id: i64,
    next_namespace: u8,
    docs_fail: bool,
    known: Vec<NamespaceId>,
}

impl Stores {
    fn new() -> Stores {
        Stores { rows: Vec::new(), next_id: 1, next_namespace: 1, docs_fail: false, known: Vec::new() }
    }

    fn answer(&mut self, action: &Action) -> Event {
        match action {
            Action::CreateNamespace => {
                if self.docs_fail {
                    return Event::NamespaceFailed("disk full".to_string());
                }
                let id = NamespaceId { bytes: [self.next_namespace; 32] };
                self.next_namespace += 1;
                self.known.push(id);
                Event::NamespaceCreated(id)
            }
            Action::OpenNamespace(id) => {
                if self.known.contains(id) {
                    Event::NamespaceOpened
                } else {
                    Event::NamespaceMissing
                }
            }
            Action::InsertRow { public_key, name } => {
                let id = self.next_id;
                self.next_id += 1;
                self.rows.push(Model { id, public_key: *public_key, name: name.clone() });
                Event::RowInserted(id)
            }
            Action::Complete(_) => panic!("nothing to answer"),
        }
    }

    fn run(&mut self, start: (Phase, Action)) -> Result<Model, Error> {
        let (mut phase, mut action) = start;
        loop {
            if let Action::Complete(r) = action {
                return r;
            }
            let event = self.answer(&action);
            assert!(accepts(&phase, &event));
            let (p, a) = step(phase, event);
            phase = p;
            action = a;
        }
    }

    fn get_by_name(&self, name: &str) -> Result<Option<Model>, Error> {
        Model::from_lookup(Ok(self.rows.iter().find(|m| m.name == name).cloned()))
    }
}

#[test]
fn insert_and_get_record() {
    let mut db = Stores::new();
    let model = db.run(start_create("test".to_string())).unwrap();
    assert_eq!(model, db.get_by_name("test").unwrap().unwrap());
}

#[test]
fn create_assigns_key_of_new_namespace() {
    let mut db = Stores::new();
    let model = db.run(start_create("notes".to_string())).unwrap();
    assert_eq!(model.id, 1);
    assert_eq!(model.public_key, WorkspacePublicKey { bytes: [1; 32] });
    assert_eq!(model.name, "notes");
}

#[test]
fn failed_namespace_writes_no_row() {
    let mut db = Stores::new();
    db.docs_fail = true;
    let r = db.run(start_create("test".to_string()));
    assert_eq!(r, Err(Error::Docs("disk full".to_string())));
    assert_eq!(db.rows.len(), 0);
}

#[test]
fn store_failure_is_database_error() {
    let (phase, _) = step(Phase::Creating { name: "a".to_string() }, Event::NamespaceCreated(NamespaceId { bytes: [7; 32] }));
    let (next, action) = step(phase, Event::StoreFailed("locked".to_string()));
    assert_eq!(next, Phase::Finished);
    assert_eq!(action, Action::Complete(Err(Error::Database("locked".to_string()))));
}

#[test]
fn join_keeps_public_key() {
    let mut db = Stores::new();
    let original = db.run(start_create("shared".to_string())).unwrap();
    let ticket = original.ticket(vec!["peer-a".to_string()]);
    let joined = db.run(start_join("mine".to_string(), &ticket)).unwrap();
    assert_eq!(joined.public_key, original.public_key);
    assert_eq!(joined.name, "mine");
    assert_ne!(joined.id, original.id);
}

#[test]
fn join_of_unknown_namespace_is_docs_error() {
    let mut db = Stores::new();
    let ticket = caretta_framework::workspace::DocTicket { namespace: NamespaceId { bytes: [0xab; 32] }, nodes: Vec::new() };
    let r = db.run(start_join("x".to_string(), &ticket));
    let expected = format!("namespace {} not found", "ab".repeat(32));
    assert_eq!(r, Err(Error::Docs(expected)));
    assert_eq!(db.rows.len(), 0);
}

#[test]
fn same_name_creates_two_workspaces() {
    let mut db = Stores::new();
    let a = db.run(start_create("dup".to_string())).unwrap();
    let b = db.run(start_create("dup".to_string())).unwrap();
    assert_ne!(a.id, b.id);
    assert_ne!(a.public_key, b.public_key);
    assert_eq!(db.rows.len(), 2);
}

#[test]
fn unexpected_event_is_not_accepted() {
    let phase = Phase::Creating { name: "a".to_string() };
    assert!(!accepts(&phase, &Event::RowInserted(3)));
    assert!(!accepts(&Phase::Finished, &Event::NamespaceOpened));
    assert!(accepts(&Phase::Joining { name: "a".to_string(), namespace: NamespaceId { bytes: [0; 32] } }, &Event::NamespaceMissing));
}

#[test]
fn lookup_failure_is_database_error() {
    assert_eq!(Model::from_lookup(Err("gone".to_string())), Err(Error::Database("gone".to_string())));
    assert_eq!(Model::from_lookup(Ok(None)), Ok(None));
}

#[test]
fn doc_outcomes() {
    let m = Model { id: 4, public_key: WorkspacePublicKey { bytes: [0x0f; 32] }, name: "w".to_string() };
    assert_eq!(m.doc_outcome(Ok(true)), Ok(()));
    assert_eq!(m.doc_outcome(Err("closed".to_string())), Err(Error::Docs("closed".to_string())));
    let text = format!("Failed to get doc {:?} from DocsAPI", m);
    assert_eq!(m.doc_outcome(Ok(false)), Err(Error::Docs(text)));
    let shown = format!("Model {{ id: 4, public_key: WorkspacePublicKey {{ bytes: [{}] }}, name: \"w\" }}", vec!["15"; 32].join(", "));
    assert_eq!(m.debug(), shown);
}

#[test]
fn missing_namespace_text() {
    let id = NamespaceId { bytes: [0x10; 32] };
    assert_eq!(missing_namespace_message(&id), format!("namespace {} not found", "10".repeat(32)));
}

#[test]
fn namespace_id_round_trip() {
    let k = WorkspacePublicKey { bytes: [9; 32] };
    assert_eq!(k.namespace_id().public_key(), k);
}
