//! The capsule registry: capsules by id, with a slug that never changes once
//! written, and the ports that capsules hold.

use crate::capsule::{parse_state, state_named, Capsule, CapsuleMode, CapsuleState, CapsuleView};
use crate::text::{conjoin, contains, contains_text, text_eq};
use crate::text_map::{ascending, TextMap};
use vstd::prelude::*;

verus! {

/// What can go wrong with the registry. The first three variants hold the
/// text of the cause.
#[derive(Debug, PartialEq, Eq)]
pub enum StoreError {
    Db(String),
    Io(String),
    Yaml(String),
    ImmutableSlug { capsule_id: String, existing_slug: String, attempted_slug: String },
}

pub enum StoreErrorView {
    Db(Seq<char>),
    Io(Seq<char>),
    Yaml(Seq<char>),
    ImmutableSlug { capsule_id: Seq<char>, existing_slug: Seq<char>, attempted_slug: Seq<char> },
}

impl View for StoreError {
    type V = StoreErrorView;

    open spec fn view(&self) -> StoreErrorView {
        match self {
            StoreError::Db(cause) => StoreErrorView::Db(cause@),
            StoreError::Io(cause) => StoreErrorView::Io(cause@),
            StoreError::Yaml(cause) => StoreErrorView::Yaml(cause@),
            StoreError::ImmutableSlug {
                capsule_id,
                existing_slug,
                attempted_slug,
            } => StoreErrorView::ImmutableSlug {
                capsule_id: capsule_id@,
                existing_slug: existing_slug@,
                attempted_slug: attempted_slug@,
            },
        }
    }
}

/// The error as one line.
pub open spec fn store_error_text(error: StoreErrorView) -> Seq<char> {
    match error {
        StoreErrorView::Db(cause) => "db: "@ + cause,
        StoreErrorView::Io(cause) => "io: "@ + cause,
        StoreErrorView::Yaml(cause) => "yaml: "@ + cause,
        StoreErrorView::ImmutableSlug { capsule_id, existing_slug, attempted_slug } =>
            "immutable slug for capsule "@ + capsule_id + ": "@ + existing_slug + " cannot become "@
                + attempted_slug,
    }
}

impl StoreError {
    /// The error as one line.
    pub fn message(&self) -> (line: String)
        ensures
            line@ == store_error_text(self@),
    {
        match self {
            StoreError::Db(cause) => conjoin("db: ", cause.as_str()),
            StoreError::Io(cause) => conjoin("io: ", cause.as_str()),
            StoreError::Yaml(cause) => conjoin("yaml: ", cause.as_str()),
            StoreError::ImmutableSlug { capsule_id, existing_slug, attempted_slug } => {
                let mut line = String::from_str("immutable slug for capsule ");
                line.append(capsule_id.as_str());
                line.append(": ");
                line.append(existing_slug.as_str());
                line.append(" cannot become ");
                line.append(attempted_slug.as_str());
                line
            },
        }
    }
}

/// The mode that a stored name stands for: isolated for its own name, the
/// host's default for every other.
pub open spec fn stored_mode(name: Seq<char>) -> CapsuleMode {
    if name == "isolated_nix_shell"@ {
        CapsuleMode::IsolatedNixShell
    } else {
        CapsuleMode::HostDefault
    }
}

/// The state that a stored name stands for: `ready` for a name that names no
/// state.
pub open spec fn stored_state(name: Seq<char>) -> CapsuleState {
    match state_named(name) {
        Some(state) => state,
        None => CapsuleState::Ready,
    }
}

/// The capsule that a stored row stands for.
pub fn capsule_from_row(
    capsule_id: String,
    slug: String,
    display_name: String,
    repo_path: String,
    mode: &str,
    state: &str,
    workspace: u16,
) -> (capsule: Capsule)
    ensures
        capsule@ == (CapsuleView {
            capsule_id: capsule_id@,
            slug: slug@,
            display_name: display_name@,
            repo_path: repo_path@,
            mode: stored_mode(mode@),
            state: stored_state(state@),
            workspace,
        }),
{
    let mode = if text_eq(mode, "isolated_nix_shell") {
        CapsuleMode::IsolatedNixShell
    } else {
        CapsuleMode::HostDefault
    };
    let state = match parse_state(state) {
        Some(state) => state,
        None => CapsuleState::Ready,
    };
    Capsule { capsule_id, slug, display_name, repo_path, mode, state, workspace }
}

/// Whether the message of a failed migration says that the column is there
/// already, which counts as success.
pub fn is_duplicate_column(message: &str) -> (duplicate: bool)
    ensures
        duplicate == contains_text(message@, "duplicate column name"@),
{
    contains(message, "duplicate column name")
}

/// The capsules of a registry, by id.
pub type CapsuleTable = Map<Seq<char>, CapsuleView>;

/// Whether an upsert of `capsule` is refused: a capsule of that id is there
/// with another slug.
pub open spec fn slug_conflict(table: CapsuleTable, capsule: CapsuleView) -> bool {
    table.contains_key(capsule.capsule_id) && table[capsule.capsule_id].slug != capsule.slug
}

/// The ids of a list of capsules.
pub open spec fn ids_of(capsules: Seq<CapsuleView>) -> Seq<Seq<char>> {
    Seq::new(capsules.len(), |i: int| capsules[i].capsule_id)
}

/// Whether `capsules` lists `table`: every capsule once, in ascending order
/// of id.
pub open spec fn lists_capsules(capsules: Seq<CapsuleView>, table: CapsuleTable) -> bool {
    &&& ascending(ids_of(capsules))
    &&& forall|i: int|
        0 <= i < capsules.len() ==> table.contains_key((#[trigger] capsules[i]).capsule_id)
            && table[capsules[i].capsule_id] == capsules[i]
    &&& forall|id: Seq<char>| #[trigger] table.contains_key(id) ==> ids_of(capsules).contains(id)
}

/// `table` with the capsule `id`, where it is there, changed by `change`.
pub open spec fn updated(table: CapsuleTable, id: Seq<char>, change: spec_fn(CapsuleView) -> CapsuleView) -> CapsuleTable {
    if table.contains_key(id) {
        table.insert(id, change(table[id]))
    } else {
        table
    }
}

/// One port and the capsule that holds it.
#[derive(Debug, PartialEq, Eq)]
pub struct PortRow {
    pub port: u16,
    pub capsule_id: String,
}

impl DeepView for PortRow {
    type V = (u16, Seq<char>);

    open spec fn deep_view(&self) -> (u16, Seq<char>) {
        (self.port, self.capsule_id@)
    }
}

/// The ports that are held, each with its holder, in ascending order of port.
pub type PortTable = Seq<(u16, Seq<char>)>;

/// Whether the ports of a table are strictly ascending, so that each port
/// has one holder.
pub open spec fn ports_ascending(rows: PortTable) -> bool {
    forall|i: int, j: int| 0 <= i < j < rows.len() ==> (#[trigger] rows[i]).0 < (#[trigger] rows[j]).0
}

/// Whether a port is held.
pub open spec fn is_taken(rows: PortTable, port: u16) -> bool {
    exists|i: int| 0 <= i < rows.len() && (#[trigger] rows[i]).0 == port
}

/// The ports that a capsule holds, in the order of the table.
pub open spec fn held_by(rows: PortTable, capsule_id: Seq<char>) -> Seq<u16>
    decreases rows.len(),
{
    if rows.len() == 0 {
        Seq::empty()
    } else if rows.last().1 == capsule_id {
        held_by(rows.drop_last(), capsule_id).push(rows.last().0)
    } else {
        held_by(rows.drop_last(), capsule_id)
    }
}

/// The table without the ports of a capsule.
pub open spec fn without(rows: PortTable, capsule_id: Seq<char>) -> PortTable
    decreases rows.len(),
{
    if rows.len() == 0 {
        Seq::empty()
    } else if rows.last().1 == capsule_id {
        without(rows.drop_last(), capsule_id)
    } else {
        without(rows.drop_last(), capsule_id).push(rows.last())
    }
}

/// Whether `port` is the smallest port of `start..=end` that is not held.
pub open spec fn is_first_free(rows: PortTable, start: u16, end: u16, port: u16) -> bool {
    &&& start <= port <= end
    &&& !is_taken(rows, port)
    &&& forall|p: u16| start <= p < port ==> is_taken(rows, p)
}

/// Whether every port of `start..=end` is held.
pub open spec fn is_exhausted(rows: PortTable, start: u16, end: u16) -> bool {
    forall|p: u16| start <= p <= end ==> is_taken(rows, p)
}

/// Whether the rows before `at` hold the ports below `port` and the others
/// the rest.
pub open spec fn parts_at(rows: PortTable, port: u16, at: int) -> bool {
    &&& 0 <= at <= rows.len()
    &&& forall|j: int| 0 <= j < at ==> (#[trigger] rows[j]).0 < port
    &&& forall|j: int| at <= j < rows.len() ==> (#[trigger] rows[j]).0 >= port
}

/// Where a port stands or would stand in an ascending table: the index of
/// the first row whose port is not below it.
pub open spec fn place_of_port(rows: PortTable, port: u16) -> int {
    choose|at: int| parts_at(rows, port, at)
}

/// The place of a port is the one index that parts the ports below it from
/// the others.
pub proof fn lemma_place_of_port(rows: PortTable, port: u16, at: int)
    requires
        parts_at(rows, port, at),
    ensures
        place_of_port(rows, port) == at,
{
    let found = place_of_port(rows, port);
    assert(parts_at(rows, port, found));
    if found < at {
        assert(rows[found].0 < port);
        assert(rows[found].0 >= port);
    } else if at < found {
        assert(rows[at].0 < port);
        assert(rows[at].0 >= port);
    }
}

/// The capsule registry.
#[derive(Debug)]
pub struct CapsuleStore {
    capsules: TextMap<Capsule>,
    ports: Vec<PortRow>,
}

impl CapsuleStore {
    /// The capsules, by id.
    pub closed spec fn capsules(&self) -> CapsuleTable {
        self.capsules@.map_values(|capsule: Capsule| capsule@)
    }

    /// The ports that are held, in ascending order.
    pub closed spec fn ports(&self) -> PortTable {
        self.ports.deep_view()
    }

    /// The invariant: every capsule stands under its own id, and every port
    /// has one holder.
    pub closed spec fn wf(&self) -> bool {
        &&& self.capsules.wf()
        &&& forall|id: Seq<char>| #[trigger]
            self.capsules().contains_key(id) ==> self.capsules()[id].capsule_id == id
        &&& ports_ascending(self.ports())
    }

    /// Every port of a valid registry has one holder.
    pub proof fn lemma_ports_ascending(&self)
        requires
            self.wf(),
        ensures
            ports_ascending(self.ports()),
    {
    }

    /// A registry without capsules and without ports.
    pub fn new() -> (store: Self)
        ensures
            store.wf(),
            store.capsules() == CapsuleTable::empty(),
            store.ports() == PortTable::empty(),
    {
        let store = CapsuleStore { capsules: TextMap::new(), ports: Vec::new() };
        assert(store.capsules() =~= CapsuleTable::empty());
        assert(store.ports() =~= PortTable::empty());
        store
    }

    /// Writes a capsule under its id. Where a capsule of that id is there
    /// with another slug, nothing is written and the error names both slugs;
    /// otherwise the capsule replaces what was there.
    pub fn upsert(&mut self, capsule: Capsule) -> (result: Result<(), StoreError>)
        requires
            old(self).wf(),
        ensures
            final(self).wf(),
            final(self).ports() == old(self).ports(),
            match result {
                Ok(()) => !slug_conflict(old(self).capsules(), capsule@) && final(self).capsules()
                    == old(self).capsules().insert(capsule@.capsule_id, capsule@),
                Err(error) => slug_conflict(old(self).capsules(), capsule@) && final(self).capsules() == old(self).capsules() && error@ == (StoreErrorView::ImmutableSlug {
                    capsule_id: capsule@.capsule_id,
                    existing_slug: old(self).capsules()[capsule@.capsule_id].slug,
                    attempted_slug: capsule@.slug,
                }),
            },
    {
        match self.capsules.get(capsule.capsule_id.as_str()) {
            Some(existing) => {
                if existing.slug != capsule.slug {
                    return Err(
                        StoreError::ImmutableSlug {
                            capsule_id: capsule.capsule_id.clone(),
                            existing_slug: existing.slug.clone(),
                            attempted_slug: capsule.slug.clone(),
                        },
                    );
                }
            },
            None => {},
        }
        let ghost before = self.capsules();
        let key = capsule.capsule_id.clone();
        let _ = self.capsules.insert(key, capsule);
        assert(self.capsules() =~= before.insert(capsule@.capsule_id, capsule@));
        Ok(())
    }

    /// The capsule of an id, if there is one.
    pub fn get(&self, capsule_id: &str) -> (result: Result<Option<Capsule>, StoreError>)
        requires
            self.wf(),
        ensures
            match result {
                Ok(Some(capsule)) => self.capsules().contains_key(capsule_id@) && capsule@
                    == self.capsules()[capsule_id@],
                Ok(None) => !self.capsules().contains_key(capsule_id@),
                Err(_) => false,
            },
    {
        match self.capsules.get(capsule_id) {
            Some(capsule) => Ok(Some(capsule.clone())),
            None => Ok(None),
        }
    }

    /// All capsules, in ascending order of id.
    pub fn list(&self) -> (result: Result<Vec<Capsule>, StoreError>)
        requires
            self.wf(),
        ensures
            result matches Ok(capsules) && lists_capsules(capsules.deep_view(), self.capsules()),
    {
        let mut capsules: Vec<Capsule> = Vec::new();
        let n: usize = self.capsules.len();
        let mut i: usize = 0;
        while i < n
            invariant
                self.wf(),
                n == self.capsules.ordered_keys().len(),
                i <= n,
                capsules.len() == i,
                forall|j: int|
                    0 <= j < i ==> (#[trigger] capsules[j])@
                        == self.capsules()[self.capsules.ordered_keys()[j]],
            decreases n - i,
        {
            proof {
                self.capsules.lemma_ordered();
            }
            capsules.push(self.capsules.value_at(i).clone());
            i += 1;
        }
        proof {
            self.capsules.lemma_ordered();
            let keys = self.capsules.ordered_keys();
            let listed = capsules.deep_view();
            assert forall|j: int| 0 <= j < listed.len() implies self.capsules().contains_key(
                (#[trigger] listed[j]).capsule_id,
            ) && self.capsules()[listed[j].capsule_id] == listed[j] && listed[j].capsule_id
                == keys[j] by {
                assert(listed[j] == capsules[j]@);
                assert(self.capsules@.contains_key(keys[j]));
                assert(self.capsules().contains_key(keys[j]));
                assert(listed[j] == self.capsules()[keys[j]]);
            }
            assert(ids_of(listed) =~= keys);
        }
        Ok(capsules)
    }

    /// Writes a changed copy of the capsule `capsule_id` back.
    fn replace(&mut self, changed: Capsule)
        requires
            old(self).wf(),
            old(self).capsules().contains_key(changed@.capsule_id),
        ensures
            final(self).wf(),
            final(self).ports() == old(self).ports(),
            final(self).capsules() == old(self).capsules().insert(changed@.capsule_id, changed@),
    {
        let ghost before = self.capsules();
        let key = changed.capsule_id.clone();
        let _ = self.capsules.insert(key, changed);
        assert(self.capsules() =~= before.insert(changed@.capsule_id, changed@));
    }

    /// Writes the state of a capsule; any target is accepted, and nothing
    /// changes where the capsule is not there.
    pub fn transition_state(&mut self, capsule_id: &str, state: CapsuleState) -> (result: Result<
        (),
        StoreError,
    >)
        requires
            old(self).wf(),
        ensures
            final(self).wf(),
            result is Ok,
            final(self).ports() == old(self).ports(),
            final(self).capsules() == updated(
                old(self).capsules(),
                capsule_id@,
                |capsule: CapsuleView| CapsuleView { state, ..capsule },
            ),
    {
        match self.capsules.get(capsule_id) {
            Some(capsule) => {
                assert(self.capsules().contains_key(capsule_id@));
                assert(self.capsules()[capsule_id@] == capsule@);
                let mut changed = capsule.clone();
                changed.transition_state(state);
                self.replace(changed);
            },
            None => {},
        }
        Ok(())
    }

    /// Changes the label of a capsule and nothing else of it; nothing changes
    /// where the capsule is not there.
    pub fn rename_display_name(&mut self, capsule_id: &str, display_name: &str) -> (result: Result<
        (),
        StoreError,
    >)
        requires
            old(self).wf(),
        ensures
            final(self).wf(),
            result is Ok,
            final(self).ports() == old(self).ports(),
            final(self).capsules() == updated(
                old(self).capsules(),
                capsule_id@,
                |capsule: CapsuleView| CapsuleView { display_name: display_name@, ..capsule },
            ),
    {
        match self.capsules.get(capsule_id) {
            Some(capsule) => {
                assert(self.capsules().contains_key(capsule_id@));
                assert(self.capsules()[capsule_id@] == capsule@);
                let mut changed = capsule.clone();
                changed.rename_display_name(display_name);
                self.replace(changed);
            },
            None => {},
        }
        Ok(())
    }

    /// Sets the repository path of a capsule; nothing changes where the
    /// capsule is not there.
    pub fn set_repo_path(&mut self, capsule_id: &str, repo_path: &str) -> (result: Result<
        (),
        StoreError,
    >)
        requires
            old(self).wf(),
        ensures
            final(self).wf(),
            result is Ok,
            final(self).ports() == old(self).ports(),
            final(self).capsules() == updated(
                old(self).capsules(),
                capsule_id@,
                |capsule: CapsuleView| CapsuleView { repo_path: repo_path@, ..capsule },
            ),
    {
        match self.capsules.get(capsule_id) {
            Some(capsule) => {
                assert(self.capsules().contains_key(capsule_id@));
                assert(self.capsules()[capsule_id@] == capsule@);
                let mut changed = capsule.clone();
                changed.set_repo_path(repo_path);
                self.replace(changed);
            },
            None => {},
        }
        Ok(())
    }
}

/// The ports that a capsule holds in two tables put end to end are those of
/// the first followed by those of the second.
pub proof fn lemma_held_by_concat(a: PortTable, b: PortTable, capsule_id: Seq<char>)
    ensures
        held_by(a + b, capsule_id) == held_by(a, capsule_id) + held_by(b, capsule_id),
    decreases b.len(),
{
    if b.len() == 0 {
        assert(a + b =~= a);
        assert(held_by(a, capsule_id) + held_by(b, capsule_id) =~= held_by(a, capsule_id));
    } else {
        lemma_held_by_concat(a, b.drop_last(), capsule_id);
        assert((a + b).drop_last() =~= a + b.drop_last());
        assert((a + b).last() == b.last());
        assert(held_by(a + b, capsule_id) =~= held_by(a, capsule_id) + held_by(b, capsule_id));
    }
}

/// Every port that a capsule holds stands in the table with that capsule as
/// its holder.
pub proof fn lemma_held_by_member(rows: PortTable, capsule_id: Seq<char>, k: int)
    requires
        0 <= k < held_by(rows, capsule_id).len(),
    ensures
        exists|i: int|
            0 <= i < rows.len() && #[trigger] rows[i] == (held_by(rows, capsule_id)[k], capsule_id),
    decreases rows.len(),
{
    let before = held_by(rows.drop_last(), capsule_id);
    if rows.last().1 == capsule_id && k == before.len() {
        assert(rows[rows.len() - 1] == (held_by(rows, capsule_id)[k], capsule_id));
    } else {
        lemma_held_by_member(rows.drop_last(), capsule_id, k);
        let i = choose|i: int|
            0 <= i < rows.drop_last().len() && #[trigger] rows.drop_last()[i] == (
                before[k],
                capsule_id,
            );
        assert(rows[i] == (held_by(rows, capsule_id)[k], capsule_id));
    }
}

/// Two different capsules hold no port in common.
pub proof fn lemma_ports_disjoint(rows: PortTable, a: Seq<char>, b: Seq<char>, port: u16)
    requires
        ports_ascending(rows),
        a != b,
        held_by(rows, a).contains(port),
    ensures
        !held_by(rows, b).contains(port),
{
    if held_by(rows, b).contains(port) {
        let ka = held_by(rows, a).index_of(port);
        let kb = held_by(rows, b).index_of(port);
        lemma_held_by_member(rows, a, ka);
        lemma_held_by_member(rows, b, kb);
        let i = choose|i: int| 0 <= i < rows.len() && #[trigger] rows[i] == (port, a);
        let j = choose|j: int| 0 <= j < rows.len() && #[trigger] rows[j] == (port, b);
        if i < j {
            assert(rows[i].0 < rows[j].0);
        } else if j < i {
            assert(rows[j].0 < rows[i].0);
        }
    }
}

impl CapsuleStore {
    /// The ports of a capsule, in ascending order.
    pub fn list_ports(&self, capsule_id: &str) -> (result: Result<Vec<u16>, StoreError>)
        requires
            self.wf(),
        ensures
            result matches Ok(ports) && ports@ == held_by(self.ports(), capsule_id@),
    {
        let mut ports: Vec<u16> = Vec::new();
        let mut i: usize = 0;
        while i < self.ports.len()
            invariant
                i <= self.ports.len(),
                ports@ == held_by(self.ports().take(i as int), capsule_id@),
            decreases self.ports.len() - i,
        {
            proof {
                let upto = self.ports().take(i + 1);
                assert(upto.drop_last() =~= self.ports().take(i as int));
                assert(upto.last() == self.ports()[i as int]);
                assert(self.ports()[i as int] == self.ports[i as int].deep_view());
            }
            if text_eq(self.ports[i].capsule_id.as_str(), capsule_id) {
                ports.push(self.ports[i].port);
            }
            i += 1;
        }
        assert(self.ports().take(self.ports.len() as int) =~= self.ports());
        Ok(ports)
    }

    /// Where `port` stands or would stand in the table, and whether it is
    /// held.
    fn locate_port(&self, port: u16) -> (place: (usize, bool))
        requires
            self.wf(),
        ensures
            place.0 <= self.ports().len(),
            place.1 == is_taken(self.ports(), port),
            forall|j: int| 0 <= j < place.0 ==> (#[trigger] self.ports()[j]).0 < port,
            forall|j: int| place.0 <= j < self.ports().len() ==> (#[trigger] self.ports()[j]).0 >= port,
    {
        let mut i: usize = 0;
        while i < self.ports.len()
            invariant
                self.wf(),
                i <= self.ports.len(),
                forall|j: int| 0 <= j < i ==> (#[trigger] self.ports()[j]).0 < port,
            decreases self.ports.len() - i,
        {
            assert(self.ports()[i as int] == self.ports[i as int].deep_view());
            if self.ports[i].port >= port {
                let found = self.ports[i].port == port;
                proof {
                    let rows = self.ports();
                    assert forall|j: int| i <= j < rows.len() implies (#[trigger] rows[j]).0
                        >= port by {
                        if j > i {
                            assert(rows[i as int].0 < rows[j].0);
                        }
                    }
                    if found {
                        assert(rows[i as int].0 == port);
                    }
                }
                return (i, found);
            }
            i += 1;
        }
        (i, false)
    }

    /// Gives a port to a capsule where no capsule holds it, and says whether
    /// it did.
    pub fn claim_port(&mut self, capsule_id: &str, port: u16) -> (claimed: bool)
        requires
            old(self).wf(),
        ensures
            final(self).wf(),
            final(self).capsules() == old(self).capsules(),
            claimed == !is_taken(old(self).ports(), port),
            !claimed ==> final(self).ports() == old(self).ports(),
            claimed ==> parts_at(old(self).ports(), port, place_of_port(old(self).ports(), port)),
            claimed ==> held_by(final(self).ports(), capsule_id@) == held_by(
                old(self).ports().take(place_of_port(old(self).ports(), port)),
                capsule_id@,
            ).push(port) + held_by(
                old(self).ports().skip(place_of_port(old(self).ports(), port)),
                capsule_id@,
            ),
            claimed ==> final(self).ports() == old(self).ports().insert(
                place_of_port(old(self).ports(), port),
                (port, capsule_id@),
            ),
    {
        let (at, taken) = self.locate_port(port);
        if taken {
            return false;
        }
        let ghost before = self.ports();
        proof {
            lemma_place_of_port(before, port, at as int);
        }
        self.ports.insert(at, PortRow { port, capsule_id: String::from_str(capsule_id) });
        proof {
            let after = self.ports();
            let row = (port, capsule_id@);
            assert(after =~= before.insert(at as int, row));
            assert forall|i: int, j: int| 0 <= i < j < after.len() implies (#[trigger] after[i]).0 < (
            #[trigger] after[j]).0 by {
                let from_i = if i < at {
                    i
                } else {
                    i - 1
                };
                let from_j = if j < at {
                    j
                } else {
                    j - 1
                };
                if i != at {
                    assert(after[i] == before[from_i]);
                }
                if j != at {
                    assert(after[j] == before[from_j]);
                }
                if i == at {
                    assert(before[from_j].0 >= port);
                    assert(!is_taken(before, port));
                }
            }
            assert(after =~= before.take(at as int) + seq![row] + before.skip(at as int));
            lemma_held_by_concat(before.take(at as int), seq![row], capsule_id@);
            lemma_held_by_concat(
                before.take(at as int) + seq![row],
                before.skip(at as int),
                capsule_id@,
            );
            let one = seq![row];
            assert(one.len() == 1);
            assert(one.last() == row);
            assert(one.drop_last() =~= PortTable::empty());
            assert(held_by(one.drop_last(), capsule_id@) =~= Seq::<u16>::empty());
            assert(held_by(one, capsule_id@) =~= seq![port]);
            assert(held_by(after, capsule_id@) =~= held_by(before.take(at as int), capsule_id@).push(
                port,
            ) + held_by(before.skip(at as int), capsule_id@));
        }
        true
    }

    /// The port of a capsule: the smallest that it already holds, else the
    /// smallest port of `start..=end` that no capsule holds, which it then
    /// holds; `None` where it holds none and the range is exhausted.
    pub fn allocate_port(&mut self, capsule_id: &str, start: u16, end: u16) -> (result: Result<
        Option<u16>,
        StoreError,
    >)
        requires
            old(self).wf(),
        ensures
            final(self).wf(),
            final(self).capsules() == old(self).capsules(),
            result is Ok,
            held_by(old(self).ports(), capsule_id@).len() > 0 ==> result == Ok::<
                Option<u16>,
                StoreError,
            >(Some(held_by(old(self).ports(), capsule_id@)[0])) && final(self).ports() == old(self).ports(),
            held_by(old(self).ports(), capsule_id@).len() == 0 ==> match result {
                Ok(Some(port)) => is_first_free(old(self).ports(), start, end, port) && held_by(
                    final(self).ports(),
                    capsule_id@,
                ) == seq![port] && final(self).ports() == old(self).ports().insert(
                    place_of_port(old(self).ports(), port),
                    (port, capsule_id@),
                ),
                Ok(None) => is_exhausted(old(self).ports(), start, end) && final(self).ports()
                    == old(self).ports(),
                Err(_) => false,
            },
    {
        let mut i: usize = 0;
        while i < self.ports.len()
            invariant
                i <= self.ports.len(),
                self.ports() == old(self).ports(),
                self.capsules() == old(self).capsules(),
                self.wf(),
                held_by(self.ports().take(i as int), capsule_id@).len() == 0,
            decreases self.ports.len() - i,
        {
            proof {
                let rows = self.ports();
                let upto = rows.take(i + 1);
                assert(upto.drop_last() =~= rows.take(i as int));
                assert(upto.last() == rows[i as int]);
                assert(rows[i as int] == self.ports[i as int].deep_view());
            }
            if text_eq(self.ports[i].capsule_id.as_str(), capsule_id) {
                proof {
                    let rows = self.ports();
                    lemma_held_by_concat(rows.take(i + 1), rows.skip(i + 1), capsule_id@);
                    assert(rows.take(i + 1) + rows.skip(i + 1) =~= rows);
                    assert(held_by(rows.take(i + 1), capsule_id@) =~= seq![rows[i as int].0]);
                }
                return Ok(Some(self.ports[i].port));
            }
            i += 1;
        }
        assert(self.ports().take(self.ports.len() as int) =~= self.ports());
        if start > end {
            return Ok(None);
        }
        let mut candidate: u16 = start;
        loop
            invariant
                self.wf(),
                self.ports() == old(self).ports(),
                self.capsules() == old(self).capsules(),
                held_by(self.ports(), capsule_id@).len() == 0,
                start <= candidate <= end,
                forall|p: u16| start <= p < candidate ==> is_taken(self.ports(), p),
            decreases end - candidate,
        {
            if self.claim_port(capsule_id, candidate) {
                proof {
                    let before = old(self).ports();
                    let at = place_of_port(before, candidate);
                    lemma_held_by_concat(before.take(at), before.skip(at), capsule_id@);
                    assert(before.take(at) + before.skip(at) =~= before);
                    assert(held_by(before.take(at), capsule_id@).len() == 0);
                    assert(held_by(before.skip(at), capsule_id@).len() == 0);
                    assert(held_by(self.ports(), capsule_id@) =~= seq![candidate]);
                }
                return Ok(Some(candidate));
            }
            if candidate == end {
                return Ok(None);
            }
            candidate += 1;
        }
    }

    /// Takes every port of a capsule back, and says how many they were.
    pub fn release_ports(&mut self, capsule_id: &str) -> (result: Result<u32, StoreError>)
        requires
            old(self).wf(),
        ensures
            final(self).wf(),
            final(self).capsules() == old(self).capsules(),
            final(self).ports() == without(old(self).ports(), capsule_id@),
            result matches Ok(released) && released == held_by(old(self).ports(), capsule_id@).len(),
    {
        let mut kept: Vec<PortRow> = Vec::new();
        let mut released: u32 = 0;
        let mut i: usize = 0;
        proof {
            lemma_held_up_to(self.ports());
        }
        while i < self.ports.len()
            invariant
                i <= self.ports.len(),
                self.wf(),
                self.ports() == old(self).ports(),
                self.capsules() == old(self).capsules(),
                self.ports().len() <= 65536,
                kept.deep_view() == without(self.ports().take(i as int), capsule_id@),
                released == held_by(self.ports().take(i as int), capsule_id@).len(),
                released <= i,
                ports_ascending(kept.deep_view()),
                forall|k: int, j: int|
                    0 <= k < kept.len() && i <= j < self.ports().len() ==> (
                    #[trigger] kept.deep_view()[k]).0 < (#[trigger] self.ports()[j]).0,
            decreases self.ports.len() - i,
        {
            proof {
                let rows = self.ports();
                let upto = rows.take(i + 1);
                assert(upto.drop_last() =~= rows.take(i as int));
                assert(upto.last() == rows[i as int]);
                assert(rows[i as int] == self.ports[i as int].deep_view());
            }
            if text_eq(self.ports[i].capsule_id.as_str(), capsule_id) {
                released += 1;
            } else {
                let ghost before = kept.deep_view();
                kept.push(
                    PortRow { port: self.ports[i].port, capsule_id: self.ports[i].capsule_id.clone() },
                );
                proof {
                    let rows = self.ports();
                    assert(kept.deep_view() =~= before.push(rows[i as int]));
                    assert forall|a: int, b: int| 0 <= a < b < kept.len() implies (
                    #[trigger] kept.deep_view()[a]).0 < (#[trigger] kept.deep_view()[b]).0 by {
                        if b == kept.len() - 1 {
                            assert(kept.deep_view()[a] == before[a]);
                        } else {
                            assert(kept.deep_view()[a] == before[a]);
                            assert(kept.deep_view()[b] == before[b]);
                        }
                    }
                    assert forall|k: int, j: int|
                        0 <= k < kept.len() && i + 1 <= j < rows.len() implies (
                    #[trigger] kept.deep_view()[k]).0 < (#[trigger] rows[j]).0 by {
                        if k == kept.len() - 1 {
                            assert(rows[i as int].0 < rows[j].0);
                        } else {
                            assert(kept.deep_view()[k] == before[k]);
                        }
                    }
                }
            }
            i += 1;
        }
        assert(self.ports().take(self.ports.len() as int) =~= self.ports());
        self.ports = kept;
        Ok(released)
    }
}

/// A table in which each port has one holder has no more rows than there are
/// ports.
pub proof fn lemma_held_up_to(rows: PortTable)
    requires
        ports_ascending(rows),
    ensures
        rows.len() <= 65536,
{
    lemma_port_at_least_index(rows, rows.len() as int);
}

/// In an ascending table the port of a row is at least the row's index.
pub proof fn lemma_port_at_least_index(rows: PortTable, n: int)
    requires
        ports_ascending(rows),
        0 <= n <= rows.len(),
    ensures
        forall|i: int| 0 <= i < n ==> (#[trigger] rows[i]).0 >= i,
        n <= 65536,
    decreases n,
{
    if n > 0 {
        lemma_port_at_least_index(rows, n - 1);
        if n > 1 {
            assert(rows[n - 2].0 < rows[n - 1].0);
        }
    }
}

/// An upsert that is accepted keeps the slug of a capsule that was there:
/// what is read back under the id has the slug that was first written, and
/// differs from what was written now in nothing.
pub proof fn lemma_upsert_keeps_slug(table: CapsuleTable, capsule: CapsuleView)
    requires
        !slug_conflict(table, capsule),
    ensures
        table.insert(capsule.capsule_id, capsule)[capsule.capsule_id] == capsule,
        table.contains_key(capsule.capsule_id) ==> table.insert(
            capsule.capsule_id,
            capsule,
        )[capsule.capsule_id].slug == table[capsule.capsule_id].slug,
{
}

/// A change of the label, of the repository path or of the state leaves the
/// slug of every capsule as it was.
pub proof fn lemma_updates_keep_slug(
    table: CapsuleTable,
    id: Seq<char>,
    display_name: Seq<char>,
    repo_path: Seq<char>,
    state: CapsuleState,
    other: Seq<char>,
)
    requires
        table.contains_key(other),
    ensures
        updated(table, id, |capsule: CapsuleView| CapsuleView { display_name, ..capsule })[other].slug
            == table[other].slug,
        updated(table, id, |capsule: CapsuleView| CapsuleView { repo_path, ..capsule })[other].slug
            == table[other].slug,
        updated(table, id, |capsule: CapsuleView| CapsuleView { state, ..capsule })[other].slug
            == table[other].slug,
{
}

/// Two different capsules of a registry hold no port in common.
pub proof fn lemma_store_ports_disjoint(store: &CapsuleStore, a: Seq<char>, b: Seq<char>, port: u16)
    requires
        store.wf(),
        a != b,
        held_by(store.ports(), a).contains(port),
    ensures
        !held_by(store.ports(), b).contains(port),
{
    store.lemma_ports_ascending();
    lemma_ports_disjoint(store.ports(), a, b, port);
}

} // verus!
