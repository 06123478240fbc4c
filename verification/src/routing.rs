//! The routing core: an in-memory table from domain to upstream, driven by
//! commands, in which a domain belongs to one capsule at a time.

use crate::text_map::{ascending, lemma_same_keys, TextMap};
use vstd::prelude::*;

verus! {

/// One route of the table.
#[derive(Debug, PartialEq, Eq)]
pub struct RouteEntry {
    pub capsule_id: String,
    pub domain: String,
    pub upstream: String,
    pub tls_mode: String,
}

pub struct RouteEntryView {
    pub capsule_id: Seq<char>,
    pub domain: Seq<char>,
    pub upstream: Seq<char>,
    pub tls_mode: Seq<char>,
}

impl View for RouteEntry {
    type V = RouteEntryView;

    open spec fn view(&self) -> RouteEntryView {
        RouteEntryView {
            capsule_id: self.capsule_id@,
            domain: self.domain@,
            upstream: self.upstream@,
            tls_mode: self.tls_mode@,
        }
    }
}

impl DeepView for RouteEntry {
    type V = RouteEntryView;

    open spec fn deep_view(&self) -> RouteEntryView {
        self@
    }
}

impl Clone for RouteEntry {
    fn clone(&self) -> (copy: Self)
        ensures
            copy@ == self@,
    {
        RouteEntry {
            capsule_id: self.capsule_id.clone(),
            domain: self.domain.clone(),
            upstream: self.upstream.clone(),
            tls_mode: self.tls_mode.clone(),
        }
    }
}

/// A command to the routing core.
#[derive(Debug, PartialEq, Eq)]
pub enum RouteCommand {
    Health,
    Register { capsule_id: String, domain: String, upstream: String },
    Resolve { domain: String },
    Remove { domain: String },
    List,
}

pub enum RouteCommandView {
    Health,
    Register { capsule_id: Seq<char>, domain: Seq<char>, upstream: Seq<char> },
    Resolve { domain: Seq<char> },
    Remove { domain: Seq<char> },
    List,
}

impl View for RouteCommand {
    type V = RouteCommandView;

    open spec fn view(&self) -> RouteCommandView {
        match self {
            RouteCommand::Health => RouteCommandView::Health,
            RouteCommand::Register { capsule_id, domain, upstream } => RouteCommandView::Register {
                capsule_id: capsule_id@,
                domain: domain@,
                upstream: upstream@,
            },
            RouteCommand::Resolve { domain } => RouteCommandView::Resolve { domain: domain@ },
            RouteCommand::Remove { domain } => RouteCommandView::Remove { domain: domain@ },
            RouteCommand::List => RouteCommandView::List,
        }
    }
}

impl Clone for RouteCommand {
    fn clone(&self) -> (copy: Self)
        ensures
            copy@ == self@,
    {
        match self {
            RouteCommand::Health => RouteCommand::Health,
            RouteCommand::Register { capsule_id, domain, upstream } => RouteCommand::Register {
                capsule_id: capsule_id.clone(),
                domain: domain.clone(),
                upstream: upstream.clone(),
            },
            RouteCommand::Resolve { domain } => RouteCommand::Resolve { domain: domain.clone() },
            RouteCommand::Remove { domain } => RouteCommand::Remove { domain: domain.clone() },
            RouteCommand::List => RouteCommand::List,
        }
    }
}

/// The answer of the routing core to one command.
#[derive(Debug, PartialEq, Eq)]
pub enum RouteOutcome {
    Health { status: String },
    Registered { domain: String },
    Resolved { route: Option<RouteEntry> },
    Removed { removed: bool },
    Listed { routes: Vec<RouteEntry> },
    Error { code: String, message: String },
}

pub enum RouteOutcomeView {
    Health { status: Seq<char> },
    Registered { domain: Seq<char> },
    Resolved { route: Option<RouteEntryView> },
    Removed { removed: bool },
    Listed { routes: Seq<RouteEntryView> },
    Error { code: Seq<char>, message: Seq<char> },
}

impl View for RouteOutcome {
    type V = RouteOutcomeView;

    open spec fn view(&self) -> RouteOutcomeView {
        match self {
            RouteOutcome::Health { status } => RouteOutcomeView::Health { status: status@ },
            RouteOutcome::Registered { domain } => RouteOutcomeView::Registered { domain: domain@ },
            RouteOutcome::Resolved { route } => RouteOutcomeView::Resolved {
                route: match route {
                    Some(entry) => Some(entry@),
                    None => None,
                },
            },
            RouteOutcome::Removed { removed } => RouteOutcomeView::Removed { removed: *removed },
            RouteOutcome::Listed { routes } => RouteOutcomeView::Listed {
                routes: routes.deep_view(),
            },
            RouteOutcome::Error { code, message } => RouteOutcomeView::Error {
                code: code@,
                message: message@,
            },
        }
    }
}

/// The routing table as a map from domain to route.
pub type RouteTable = Map<Seq<char>, RouteEntryView>;

/// The route that a registration writes.
pub open spec fn registered_entry(
    capsule_id: Seq<char>,
    domain: Seq<char>,
    upstream: Seq<char>,
) -> RouteEntryView {
    RouteEntryView { capsule_id, domain, upstream, tls_mode: "self_signed"@ }
}

/// Whether `domain` is held by a capsule other than `capsule_id`.
pub open spec fn conflicts(table: RouteTable, capsule_id: Seq<char>, domain: Seq<char>) -> bool {
    table.contains_key(domain) && table[domain].capsule_id != capsule_id
}

/// The message of a refused registration.
pub open spec fn conflict_message(domain: Seq<char>, owner: Seq<char>) -> Seq<char> {
    "domain '"@ + domain + "' already claimed by "@ + owner
}

/// The table after a command.
pub open spec fn table_after(table: RouteTable, command: RouteCommandView) -> RouteTable {
    match command {
        RouteCommandView::Register { capsule_id, domain, upstream } => if conflicts(
            table,
            capsule_id,
            domain,
        ) {
            table
        } else {
            table.insert(domain, registered_entry(capsule_id, domain, upstream))
        },
        RouteCommandView::Remove { domain } => table.remove(domain),
        _ => table,
    }
}

/// The domains of a list of routes.
pub open spec fn domains_of(routes: Seq<RouteEntryView>) -> Seq<Seq<char>> {
    Seq::new(routes.len(), |i: int| routes[i].domain)
}

/// Whether `routes` lists `table`: every route of the table once, in ascending
/// order of domain.
pub open spec fn is_listing(routes: Seq<RouteEntryView>, table: RouteTable) -> bool {
    &&& ascending(domains_of(routes))
    &&& forall|i: int|
        0 <= i < routes.len() ==> table.contains_key((#[trigger] routes[i]).domain)
            && table[routes[i].domain] == routes[i]
    &&& forall|domain: Seq<char>| #[trigger]
        table.contains_key(domain) ==> domains_of(routes).contains(domain)
}

/// Whether `outcome` is the answer to `command` on `table`.
pub open spec fn answers(table: RouteTable, command: RouteCommandView, outcome: RouteOutcomeView) -> bool {
    match command {
        RouteCommandView::Health => outcome == (RouteOutcomeView::Health { status: "ok"@ }),
        RouteCommandView::Register { capsule_id, domain, upstream } => if conflicts(
            table,
            capsule_id,
            domain,
        ) {
            outcome == (RouteOutcomeView::Error {
                code: "domain_conflict"@,
                message: conflict_message(domain, table[domain].capsule_id),
            })
        } else {
            outcome == (RouteOutcomeView::Registered { domain })
        },
        RouteCommandView::Resolve { domain } => outcome == (RouteOutcomeView::Resolved {
            route: if table.contains_key(domain) {
                Some(table[domain])
            } else {
                None
            },
        }),
        RouteCommandView::Remove { domain } => outcome == (RouteOutcomeView::Removed {
            removed: table.contains_key(domain),
        }),
        RouteCommandView::List => outcome matches RouteOutcomeView::Listed { routes }
            && is_listing(routes, table),
    }
}

/// Whether every route of `table` stands under its own domain and is served
/// with a self-signed certificate.
pub open spec fn table_consistent(table: RouteTable) -> bool {
    forall|domain: Seq<char>| #[trigger]
        table.contains_key(domain) ==> table[domain].domain == domain && table[domain].tls_mode
            == "self_signed"@
}

/// The state of the routing core.
#[derive(Debug)]
pub struct RouterState {
    routes: TextMap<RouteEntry>,
}

impl RouterState {
    /// The invariant of the table.
    pub closed spec fn wf(&self) -> bool {
        &&& self.routes.wf()
        &&& table_consistent(self@)
    }

    /// The table as a map from domain to route.
    pub closed spec fn view(&self) -> RouteTable {
        self.routes@.map_values(|entry: RouteEntry| entry@)
    }

    /// Every route of a valid state stands under its own domain and is served
    /// with a self-signed certificate.
    pub proof fn lemma_consistent(&self)
        requires
            self.wf(),
        ensures
            table_consistent(self@),
    {
    }

    /// A state without routes.
    pub fn new() -> (state: Self)
        ensures
            state.wf(),
            state@ == RouteTable::empty(),
    {
        let state = RouterState { routes: TextMap::new() };
        assert(state@ =~= RouteTable::empty());
        state
    }

    /// All routes in ascending order of domain.
    fn listing(&self) -> (routes: Vec<RouteEntry>)
        requires
            self.wf(),
        ensures
            is_listing(routes.deep_view(), self@),
    {
        let mut routes: Vec<RouteEntry> = Vec::new();
        let n: usize = self.routes.len();
        let mut i: usize = 0;
        proof {
            self.routes.lemma_ordered();
        }
        while i < n
            invariant
                self.wf(),
                n == self.routes.ordered_keys().len(),
                i <= n,
                routes.len() == i,
                forall|j: int|
                    0 <= j < i ==> (#[trigger] routes[j])@ == self@[self.routes.ordered_keys()[j]],
            decreases n - i,
        {
            proof {
                self.routes.lemma_ordered();
            }
            routes.push(self.routes.value_at(i).clone());
            i += 1;
        }
        proof {
            self.routes.lemma_ordered();
            let keys = self.routes.ordered_keys();
            let listed = routes.deep_view();
            assert forall|j: int| 0 <= j < listed.len() implies self@.contains_key(
                (#[trigger] listed[j]).domain,
            ) && self@[listed[j].domain] == listed[j] && listed[j].domain == keys[j] by {
                assert(listed[j] == routes[j]@);
                assert(self.routes@.contains_key(keys[j]));
                assert(self@.contains_key(keys[j]));
                assert(listed[j] == self@[keys[j]]);
            }
            assert(domains_of(listed) =~= keys);
        }
        routes
    }

    /// Applies one command: a registration is refused where another capsule
    /// holds the domain and is an upsert otherwise; the other commands look
    /// up, delete and list.
    pub fn handle(&mut self, command: RouteCommand) -> (outcome: RouteOutcome)
        requires
            old(self).wf(),
        ensures
            final(self).wf(),
            final(self)@ == table_after(old(self)@, command@),
            answers(old(self)@, command@, outcome@),
    {
        match command {
            RouteCommand::Health => RouteOutcome::Health { status: String::from_str("ok") },
            RouteCommand::Register { capsule_id, domain, upstream } => {
                match self.routes.get(domain.as_str()) {
                    Some(existing) => {
                        if existing.capsule_id != capsule_id {
                            let mut message = String::from_str("domain '");
                            message.append(domain.as_str());
                            message.append("' already claimed by ");
                            message.append(existing.capsule_id.as_str());
                            return RouteOutcome::Error {
                                code: String::from_str("domain_conflict"),
                                message,
                            };
                        }
                    },
                    None => {},
                }
                let ghost before = self@;
                let entry = RouteEntry {
                    capsule_id,
                    domain: domain.clone(),
                    upstream,
                    tls_mode: String::from_str("self_signed"),
                };
                let _ = self.routes.insert(domain.clone(), entry);
                assert(self@ =~= before.insert(domain@, entry@));
                RouteOutcome::Registered { domain }
            },
            RouteCommand::Resolve { domain } => {
                let route = match self.routes.get(domain.as_str()) {
                    Some(entry) => Some(entry.clone()),
                    None => None,
                };
                RouteOutcome::Resolved { route }
            },
            RouteCommand::Remove { domain } => {
                let ghost before = self@;
                let previous = self.routes.remove(domain.as_str());
                assert(self@ =~= before.remove(domain@));
                RouteOutcome::Removed { removed: previous.is_some() }
            },
            RouteCommand::List => RouteOutcome::Listed { routes: self.listing() },
        }
    }
}

impl Default for RouterState {
    fn default() -> (state: Self)
        ensures
            state.wf(),
            state@ == RouteTable::empty(),
    {
        RouterState::new()
    }
}

/// A registration that is accepted can be resolved: the route found under the
/// domain names the capsule and the upstream that were registered, and is
/// served with a self-signed certificate.
pub proof fn lemma_register_then_resolve(
    table: RouteTable,
    capsule_id: Seq<char>,
    domain: Seq<char>,
    upstream: Seq<char>,
    resolved: RouteOutcomeView,
)
    requires
        !conflicts(table, capsule_id, domain),
        answers(
            table_after(table, RouteCommandView::Register { capsule_id, domain, upstream }),
            RouteCommandView::Resolve { domain },
            resolved,
        ),
    ensures
        resolved == (RouteOutcomeView::Resolved {
            route: Some(
                RouteEntryView { capsule_id, domain, upstream, tls_mode: "self_signed"@ },
            ),
        }),
{
}

/// Once a capsule holds a domain, the registration of that domain by another
/// capsule is answered with `domain_conflict` and leaves the table as it was.
pub proof fn lemma_register_conflict(
    table: RouteTable,
    capsule_id: Seq<char>,
    domain: Seq<char>,
    upstream: Seq<char>,
    other_capsule_id: Seq<char>,
    other_upstream: Seq<char>,
    outcome: RouteOutcomeView,
)
    requires
        !conflicts(table, capsule_id, domain),
        other_capsule_id != capsule_id,
        answers(
            table_after(table, RouteCommandView::Register { capsule_id, domain, upstream }),
            RouteCommandView::Register {
                capsule_id: other_capsule_id,
                domain,
                upstream: other_upstream,
            },
            outcome,
        ),
    ensures
        outcome == (RouteOutcomeView::Error {
            code: "domain_conflict"@,
            message: conflict_message(domain, capsule_id),
        }),
        table_after(
            table_after(table, RouteCommandView::Register { capsule_id, domain, upstream }),
            RouteCommandView::Register {
                capsule_id: other_capsule_id,
                domain,
                upstream: other_upstream,
            },
        ) == table_after(table, RouteCommandView::Register { capsule_id, domain, upstream }),
{
}

/// A registration by the capsule that already holds the domain is an upsert:
/// it is accepted, and registering the same route twice changes nothing more.
pub proof fn lemma_register_idempotent(
    table: RouteTable,
    capsule_id: Seq<char>,
    domain: Seq<char>,
    upstream: Seq<char>,
)
    requires
        !conflicts(table, capsule_id, domain),
    ensures
        ({
            let command = RouteCommandView::Register { capsule_id, domain, upstream };
            let once = table_after(table, command);
            !conflicts(once, capsule_id, domain) && table_after(once, command) == once
        }),
{
    let command = RouteCommandView::Register { capsule_id, domain, upstream };
    let once = table_after(table, command);
    assert(table_after(once, command) =~= once);
}

/// What a listing holds is in strictly ascending order of domain, and is
/// determined by the table: two listings of one table are equal.
pub proof fn lemma_listing_unique(
    table: RouteTable,
    first: Seq<RouteEntryView>,
    second: Seq<RouteEntryView>,
)
    requires
        is_listing(first, table),
        is_listing(second, table),
    ensures
        first == second,
{
    lemma_same_keys(domains_of(first), domains_of(second));
    assert forall|i: int| 0 <= i < first.len() implies first[i] == second[i] by {
        assert(domains_of(first)[i] == first[i].domain);
        assert(domains_of(second)[i] == second[i].domain);
    }
    assert(first.len() == domains_of(first).len());
    assert(second.len() == domains_of(second).len());
    assert(first =~= second);
}

/// The wire tag of an outcome.
pub open spec fn outcome_kind(outcome: RouteOutcomeView) -> Seq<char> {
    match outcome {
        RouteOutcomeView::Health { .. } => "health"@,
        RouteOutcomeView::Registered { .. } => "registered"@,
        RouteOutcomeView::Resolved { .. } => "resolved"@,
        RouteOutcomeView::Removed { .. } => "removed"@,
        RouteOutcomeView::Listed { .. } => "listed"@,
        RouteOutcomeView::Error { .. } => "error"@,
    }
}

/// The wire tag of an outcome.
pub fn outcome_kind_str(outcome: &RouteOutcome) -> (kind: &'static str)
    ensures
        kind@ == outcome_kind(outcome@),
{
    match outcome {
        RouteOutcome::Health { .. } => "health",
        RouteOutcome::Registered { .. } => "registered",
        RouteOutcome::Resolved { .. } => "resolved",
        RouteOutcome::Removed { .. } => "removed",
        RouteOutcome::Listed { .. } => "listed",
        RouteOutcome::Error { .. } => "error",
    }
}

/// The answer to a line that is no command: an error with the code
/// `invalid_command` and the parser's message.
pub fn invalid_command(message: String) -> (outcome: RouteOutcome)
    ensures
        outcome@ == (RouteOutcomeView::Error { code: "invalid_command"@, message: message@ }),
{
    RouteOutcome::Error { code: String::from_str("invalid_command"), message }
}

impl RouterState {
    /// Answers one line of a connection: a line that parsed is handled as a
    /// command; one that did not is answered with `invalid_command` and
    /// changes nothing.
    pub fn handle_line(&mut self, parsed: Result<RouteCommand, String>) -> (outcome: RouteOutcome)
        requires
            old(self).wf(),
        ensures
            final(self).wf(),
            match parsed {
                Ok(command) => final(self)@ == table_after(old(self)@, command@) && answers(
                    old(self)@,
                    command@,
                    outcome@,
                ),
                Err(message) => final(self)@ == old(self)@ && outcome@
                    == (RouteOutcomeView::Error { code: "invalid_command"@, message: message@ }),
            },
    {
        match parsed {
            Ok(command) => self.handle(command),
            Err(message) => invalid_command(message),
        }
    }
}

/// What the daemon does with its socket path before it binds.
#[derive(Debug, Clone, Copy, PartialEq, Eq, Structural)]
pub enum SocketPathStep {
    /// Nothing is in the way.
    Bind,
    /// A socket of an earlier run is in the way: remove it, then bind.
    UnlinkThenBind,
    /// Something that is no socket is in the way: leave it and fail.
    Refuse,
}

/// The step for a socket path, given whether something is there and whether
/// that is a socket.
pub open spec fn socket_path_step(exists: bool, is_socket: bool) -> SocketPathStep {
    if !exists {
        SocketPathStep::Bind
    } else if is_socket {
        SocketPathStep::UnlinkThenBind
    } else {
        SocketPathStep::Refuse
    }
}

/// Decides what to do with the socket path: a socket that is left there is
/// removed, anything else that is there is never touched.
pub fn prepare_socket_path(exists: bool, is_socket: bool) -> (step: SocketPathStep)
    ensures
        step == socket_path_step(exists, is_socket),
{
    if !exists {
        SocketPathStep::Bind
    } else if is_socket {
        SocketPathStep::UnlinkThenBind
    } else {
        SocketPathStep::Refuse
    }
}

} // verus!
