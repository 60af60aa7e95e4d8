//! One dispatch surface over the tools of all capability providers: a table
//! from tool name to operation, built once at startup, and the steps that
//! surround a provider's call.
use vstd::prelude::*;
use crate::error::Error;
use crate::error::concat_lit;
use crate::model::DevPingResponse;
use crate::model::WorkspaceInitResponse;
use crate::model::WorkspaceJoinResponse;
use crate::model::DevPingRequest;
use crate::model::WorkspaceInitRequest;
use crate::model::WorkspaceJoinRequest;

verus! {

/// An operation that some provider implements.
#[derive(Clone, Copy, Debug, PartialEq, Eq)]
pub enum Operation {
    Ping,
    WorkspaceInit,
    WorkspaceJoin,
}

/// A decoded request, one variant per operation.
#[derive(Clone, Debug, PartialEq, Eq)]
pub enum Request {
    Ping(DevPingRequest),
    WorkspaceInit(WorkspaceInitRequest),
    WorkspaceJoin(WorkspaceJoinRequest),
}

/// A provider's response, one variant per operation.
#[derive(Clone, Debug, PartialEq, Eq)]
pub enum Response {
    Ping(DevPingResponse),
    WorkspaceInit(WorkspaceInitResponse),
    WorkspaceJoin(WorkspaceJoinResponse),
}

/// The operation that a request is for.
pub open spec fn operation_of(r: Request) -> Operation {
    match r {
        Request::Ping(_) => Operation::Ping,
        Request::WorkspaceInit(_) => Operation::WorkspaceInit,
        Request::WorkspaceJoin(_) => Operation::WorkspaceJoin,
    }
}

/// Whether `req` is a request for `op`.
pub fn request_fits(req: &Request, op: Operation) -> (r: bool)
    ensures
        r == (operation_of(*req) == op),
{
    match req {
        Request::Ping(_) => matches!(op, Operation::Ping),
        Request::WorkspaceInit(_) => matches!(op, Operation::WorkspaceInit),
        Request::WorkspaceJoin(_) => matches!(op, Operation::WorkspaceJoin),
    }
}

/// The class of a wire-level error.
#[derive(Clone, Copy, Debug, PartialEq, Eq)]
pub enum WireCode {
    /// The request could not be decoded: a protocol error.
    InvalidParams,
    /// No tool has the requested name.
    MethodNotFound,
    /// The provider failed; the payload says how.
    InternalError,
}

/// The error envelope on the wire: a message and a structured payload.
#[derive(Debug, PartialEq, Eq)]
pub struct WireError {
    pub code: WireCode,
    pub message: String,
    pub data: Option<Error>,
}

/// A startup configuration error of the router.
#[derive(Clone, Debug, PartialEq, Eq)]
pub enum RouterError {
    /// Two providers offer a tool of this name.
    DuplicateName(String),
}

/// `w` is the envelope of the failure `e`: the failure as `{:?}` writes it
/// for the message, and the failure itself as payload.
pub open spec fn is_envelope_of(w: WireError, e: Error) -> bool {
    &&& w.code == WireCode::InternalError
    &&& w.message@ == e.debug_text()
    &&& w.data == Some(e)
}

/// The envelope of a failure from the taxonomy.
pub fn to_envelope(e: Error) -> (r: WireError)
    ensures
        is_envelope_of(r, e),
{
    let message = e.debug();
    WireError { code: WireCode::InternalError, message, data: Some(e) }
}

/// The failure that an envelope carries, if any.
pub fn from_envelope(w: WireError) -> (r: Option<Error>)
    ensures
        r == w.data,
{
    w.data
}

/// Sending a failure through the envelope, whether `to_envelope` made it or
/// `finish` made it of a provider's failure, and reading it back gives the
/// same failure, of the same kind, and the message that names it.
pub proof fn lemma_envelope_round_trip(e: Error, w: WireError, back: Option<Error>)
    requires
        is_envelope_of(w, e),
        back == w.data,
    ensures
        back == Some(e),
        back->0.kind_spec() == e.kind_spec(),
        w.message@ == back->0.debug_text(),
{
}

/// The message of a request whose arguments could not be decoded.
pub open spec fn invalid_params_text(detail: Seq<char>) -> Seq<char> {
    "invalid parameters: "@ + detail
}

/// The message of a call of an unknown tool.
pub open spec fn unknown_tool_text(name: Seq<char>) -> Seq<char> {
    "unknown tool: "@ + name
}

/// The answer to the client once the provider has run: its response as it
/// is, or its failure in the envelope, kind and payload unchanged.
pub fn finish(result: Result<Response, Error>) -> (r: Result<Response, WireError>)
    ensures
        result matches Ok(resp) ==> r == Ok::<Response, WireError>(resp),
        result matches Err(e) ==> (r matches Err(w) && is_envelope_of(w, e)),
{
    match result {
        Ok(resp) => Ok(resp),
        Err(e) => Err(to_envelope(e)),
    }
}

/// Maps tool names to operations; names are unique.
pub struct Router {
    names: Vec<String>,
    ops: Vec<Operation>,
}

/// The operation registered under `name` in `entries`.
pub open spec fn lookup_in(entries: Seq<(Seq<char>, Operation)>, name: Seq<char>) -> Option<Operation>
    decreases entries.len(),
{
    if entries.len() == 0 {
        None
    } else if entries[0].0 == name {
        Some(entries[0].1)
    } else {
        lookup_in(entries.drop_first(), name)
    }
}

proof fn lemma_lookup_at(entries: Seq<(Seq<char>, Operation)>, name: Seq<char>, i: int)
    requires
        0 <= i < entries.len(),
        entries[i].0 == name,
        forall|k: int| 0 <= k < i ==> entries[k].0 != name,
    ensures
        lookup_in(entries, name) == Some(entries[i].1),
    decreases i,
{
    if i > 0 {
        lemma_lookup_at(entries.drop_first(), name, i - 1);
    }
}

proof fn lemma_lookup_absent(entries: Seq<(Seq<char>, Operation)>, name: Seq<char>)
    requires
        forall|k: int| 0 <= k < entries.len() ==> entries[k].0 != name,
    ensures
        lookup_in(entries, name) is None,
    decreases entries.len(),
{
    if entries.len() > 0 {
        lemma_lookup_absent(entries.drop_first(), name);
    }
}

proof fn lemma_lookup_found(entries: Seq<(Seq<char>, Operation)>, name: Seq<char>) -> (j: int)
    requires
        lookup_in(entries, name) is Some,
    ensures
        0 <= j < entries.len(),
        entries[j].0 == name,
    decreases entries.len(),
{
    if entries[0].0 == name {
        0
    } else {
        1 + lemma_lookup_found(entries.drop_first(), name)
    }
}

/// The entries that a list of tools adds to the table.
pub open spec fn tool_entries(tools: Seq<(String, Operation)>) -> Seq<(Seq<char>, Operation)> {
    tools.map_values(|t: (String, Operation)| (t.0@, t.1))
}

/// No name stands twice in `entries`.
pub open spec fn names_unique(entries: Seq<(Seq<char>, Operation)>) -> bool {
    forall|i: int, j: int|
        0 <= i < entries.len() && 0 <= j < entries.len() && i != j ==> entries[i].0 != entries[j].0
}

impl Router {
    /// The registered names and operations, in the order of registration.
    pub closed spec fn entries(&self) -> Seq<(Seq<char>, Operation)> {
        Seq::new(self.names@.len(), |i: int| (self.names@[i]@, self.ops@[i]))
    }

    /// The table is consistent and its names unique.
    pub closed spec fn wf(&self) -> bool {
        &&& self.names@.len() == self.ops@.len()
        &&& names_unique(self.entries())
    }

    /// A router with no tools.
    pub fn new() -> (r: Router)
        ensures
            r.wf(),
            r.entries() == Seq::<(Seq<char>, Operation)>::empty(),
    {
        let r = Router { names: Vec::new(), ops: Vec::new() };
        assert(r.entries() =~= Seq::<(Seq<char>, Operation)>::empty());
        r
    }

    /// The index of `name` in the table, if it is there.
    fn position(&self, name: &String) -> (r: Option<usize>)
        requires
            self.wf(),
        ensures
            r matches Some(i) ==> i < self.entries().len() && self.entries()[i as int].0 == name@,
            r is None ==> forall|i: int| 0 <= i < self.entries().len() ==> self.entries()[i].0 != name@,
    {
        let mut i: usize = 0;
        while i < self.names.len()
            invariant
                self.wf(),
                i <= self.names@.len(),
                forall|k: int| 0 <= k < i ==> self.entries()[k].0 != name@,
            decreases self.names@.len() - i,
        {
            if self.names[i] == *name {
                return Some(i);
            }
            i = i + 1;
        }
        None
    }

    /// The operation registered under `name`.
    pub fn lookup(&self, name: &String) -> (r: Option<Operation>)
        requires
            self.wf(),
        ensures
            r == lookup_in(self.entries(), name@),
    {
        match self.position(name) {
            Some(i) => {
                proof {
                    lemma_lookup_at(self.entries(), name@, i as int);
                }
                Some(self.ops[i])
            },
            None => {
                proof {
                    lemma_lookup_absent(self.entries(), name@);
                }
                None
            },
        }
    }

    /// Adds a tool. A name that is already registered is refused and the
    /// table stays as it was.
    pub fn register(&mut self, name: String, op: Operation) -> (r: Result<(), RouterError>)
        requires
            old(self).wf(),
        ensures
            final(self).wf(),
            lookup_in(old(self).entries(), name@) is Some ==> r == Err::<(), RouterError>(
                RouterError::DuplicateName(name),
            ) && final(self).entries() == old(self).entries(),
            lookup_in(old(self).entries(), name@) is None ==> r is Ok && final(self).entries()
                == old(self).entries().push((name@, op)),
    {
        match self.position(&name) {
            Some(i) => {
                proof {
                    lemma_lookup_at(self.entries(), name@, i as int);
                }
                Err(RouterError::DuplicateName(name))
            },
            None => {
                proof {
                    lemma_lookup_absent(self.entries(), name@);
                }
                let ghost before = self.entries();
                self.names.push(name);
                self.ops.push(op);
                assert(self.entries() =~= before.push((name@, op)));
                Ok(())
            },
        }
    }

    /// Admits a call of the tool `name` with the request that the decoder
    /// made of its arguments. What is accepted is handed to the provider of
    /// the tool; anything else is answered at once. An unknown name is
    /// `MethodNotFound`; a decoding failure, or a request for another tool,
    /// is `InvalidParams`, and no provider is called.
    pub fn begin(&self, name: &String, decoded: Result<Request, String>) -> (r: Result<
        (Operation, Request),
        WireError,
    >)
        requires
            self.wf(),
        ensures
            lookup_in(self.entries(), name@) is None ==> (r matches Err(w) && w.code
                == WireCode::MethodNotFound && w.data is None && w.message@ == unknown_tool_text(
                name@,
            )),
            lookup_in(self.entries(), name@) is Some && decoded is Err ==> (r matches Err(w)
                && w.code == WireCode::InvalidParams && w.data is None && w.message@
                == invalid_params_text(decoded->Err_0@)),
            lookup_in(self.entries(), name@) matches Some(op) ==> (decoded matches Ok(req) ==> (
            if operation_of(req) == op {
                r == Ok::<(Operation, Request), WireError>((op, req))
            } else {
                r matches Err(w) && w.code == WireCode::InvalidParams && w.data is None
                    && w.message@ == invalid_params_text("request is for another tool than "@ + name@)
            })),
    {
        match self.lookup(name) {
            None => {
                let message = concat_lit("unknown tool: ", name.as_str());
                Err(WireError { code: WireCode::MethodNotFound, message, data: None })
            },
            Some(op) => match decoded {
                Err(m) => {
                    let message = concat_lit("invalid parameters: ", m.as_str());
                    Err(WireError { code: WireCode::InvalidParams, message, data: None })
                },
                Ok(req) => {
                    if request_fits(&req, op) {
                        Ok((op, req))
                    } else {
                        let mut message = String::from_str("invalid parameters: ");
                        message.append("request is for another tool than ");
                        message.append(name.as_str());
                        proof {
                            reveal_strlit("invalid parameters: ");
                            reveal_strlit("request is for another tool than ");
                            assert(message@ =~= invalid_params_text("request is for another tool than "@ + name@));
                        }
                        Err(WireError { code: WireCode::InvalidParams, message, data: None })
                    }
                },
            },
        }
    }

    /// Adds the tools of one provider, in order. When a name is already
    /// taken, by an earlier provider or earlier in the list, the router
    /// refuses the whole set with that configuration error and the table
    /// stays as it was; otherwise every tool is added.
    pub fn register_all(&mut self, tools: Vec<(String, Operation)>) -> (r: Result<(), RouterError>)
        requires
            old(self).wf(),
        ensures
            final(self).wf(),
            r is Ok <==> names_unique(old(self).entries() + tool_entries(tools@)),
            r is Ok ==> final(self).entries() == old(self).entries() + tool_entries(tools@),
            r is Err ==> final(self).entries() == old(self).entries(),
    {
        let n0 = self.names.len();
        let ghost start = self.entries();
        let ghost all = start + tool_entries(tools@);
        let mut i: usize = 0;
        while i < tools.len()
            invariant
                self.wf(),
                i <= tools@.len(),
                start == old(self).entries(),
                n0 == start.len(),
                names_unique(start),
                all == start + tool_entries(tools@),
                self.entries() == start + tool_entries(tools@).subrange(0, i as int),
            decreases tools@.len() - i,
        {
            let name = tools[i].0.clone();
            let op = tools[i].1;
            let ghost before = self.entries();
            match self.register(name, op) {
                Ok(()) => {
                    assert(tool_entries(tools@)[i as int] == (name@, op));
                    assert(start + tool_entries(tools@).subrange(0, i + 1) =~= before.push((name@, op)));
                },
                Err(e) => {
                    proof {
                        assert(lookup_in(before, name@) is Some);
                        let j = lemma_lookup_found(before, name@);
                        let k = start.len() + i;
                        assert(j < k);
                        if j < start.len() {
                            assert(all[j] == start[j]);
                            assert(before[j] == start[j]);
                        } else {
                            assert(all[j] == tool_entries(tools@)[j - start.len()]);
                            assert(before[j] == tool_entries(tools@).subrange(0, i as int)[j - start.len()]);
                        }
                        assert(all[k] == tool_entries(tools@)[i as int]);
                        assert(tool_entries(tools@)[i as int] == (name@, op));
                        assert(all[j].0 == all[k].0);
                        assert(!names_unique(all));
                    }
                    let ghost cur = self.entries();
                    assert(cur.len() == n0 + i);
                    self.names.truncate(n0);
                    self.ops.truncate(n0);
                    assert forall|k: int| 0 <= k < n0 implies self.entries()[k] == start[k] by {
                        assert(cur[k] == start[k]);
                    }
                    assert(self.entries() =~= start);
                    assert(names_unique(start));
                    assert(self.names@.len() == self.ops@.len());
                    return Err(e);
                },
            }
            i = i + 1;
        }
        assert(tool_entries(tools@).subrange(0, i as int) =~= tool_entries(tools@));
        Ok(())
    }

    /// The tools of this library: `ping`, `workspace.init` and
    /// `workspace.join`.
    pub fn with_catalog() -> (r: Router)
        ensures
            r.wf(),
            r.entries() == seq![
                ("ping"@, Operation::Ping),
                ("workspace.init"@, Operation::WorkspaceInit),
                ("workspace.join"@, Operation::WorkspaceJoin),
            ],
    {
        let mut r = Router::new();
        proof {
            reveal_strlit("ping");
            reveal_strlit("workspace.init");
            reveal_strlit("workspace.join");
            lemma_lookup_absent(r.entries(), "ping"@);
        }
        let a = r.register(String::from_str("ping"), Operation::Ping);
        proof {
            assert("ping"@[0] != "workspace.init"@[0]);
            lemma_lookup_absent(r.entries(), "workspace.init"@);
        }
        let b = r.register(String::from_str("workspace.init"), Operation::WorkspaceInit);
        proof {
            assert("ping"@[0] != "workspace.join"@[0]);
            assert("workspace.init"@[10] != "workspace.join"@[10]);
            lemma_lookup_absent(r.entries(), "workspace.join"@);
        }
        let c = r.register(String::from_str("workspace.join"), Operation::WorkspaceJoin);
        assert(r.entries() =~= seq![
            ("ping"@, Operation::Ping),
            ("workspace.init"@, Operation::WorkspaceInit),
            ("workspace.join"@, Operation::WorkspaceJoin),
        ]);
        r
    }
}

} // verus!
