//! The operation correlation engine: the table of in-flight operations and
//! the race-tolerant protocol that merges the two completion signals of each
//! operation — the device call's return value and the out-of-band terminal
//! status event — whichever order they arrive in.

use vstd::prelude::*;

use crate::status::AppsOperationType;
use crate::text::str_eq;

verus! {

/// Version information the device keeps for one application.
#[derive(Debug, Clone, PartialEq)]
pub struct AppData {
    pub version: String,
}

impl AppData {
    pub fn new(version: String) -> (r: AppData)
        ensures
            r.version@ == version@,
    {
        AppData { version }
    }
}

impl Default for AppData {
    fn default() -> (r: AppData)
        ensures
            r.version@ == Seq::<char>::empty(),
    {
        AppData { version: String::new() }
    }
}

/// The mathematical image of one tracked operation: its type and the
/// application id and version it concerns.
pub ghost struct OpModel {
    pub op: AppsOperationType,
    pub app_id: Seq<char>,
    pub version: Seq<char>,
}

/// One install or uninstall attempt, created when the first completion signal
/// names its handle and immutable from then on.
#[derive(Debug, PartialEq)]
pub struct Operation {
    durable_app_id: String,
    operation_type: AppsOperationType,
    app_data: AppData,
}

impl Operation {
    /// The operation as a mathematical value.
    pub closed spec fn model(self) -> OpModel {
        OpModel {
            op: self.operation_type,
            app_id: self.durable_app_id@,
            version: self.app_data.version@,
        }
    }

    pub fn new(operation_type: AppsOperationType, durable_app_id: String, app_data: AppData) -> (r:
        Operation)
        ensures
            r.model() == (OpModel {
                op: operation_type,
                app_id: durable_app_id@,
                version: app_data.version@,
            }),
    {
        Operation { operation_type, durable_app_id, app_data }
    }
}

/// What `register_or_resolve` reports: `Registered` when the call recorded
/// the first completion signal for a handle, `Resolved` when it met the entry
/// left by the first signal and reconciled the operation.
#[derive(Clone, Copy, PartialEq, Eq, Structural, Debug)]
pub enum RegistrationOutcome {
    Registered,
    Resolved,
}

/// One reconciliation step on the table model: a handle already present is
/// removed (`Resolved`), an absent one is inserted with its operation
/// (`Registered`).
pub open spec fn register_step(
    m: Map<Seq<char>, OpModel>,
    handle: Seq<char>,
    op: OpModel,
) -> (RegistrationOutcome, Map<Seq<char>, OpModel>) {
    if m.dom().contains(handle) {
        (RegistrationOutcome::Resolved, m.remove(handle))
    } else {
        (RegistrationOutcome::Registered, m.insert(handle, op))
    }
}

/// One timeout expiry on the table model: the first component tells whether
/// the handle was still tracked — exactly then a cancel call is owed — and
/// the second is the table afterwards, never containing the handle.
pub open spec fn timeout_step(m: Map<Seq<char>, OpModel>, handle: Seq<char>) -> (
    bool,
    Map<Seq<char>, OpModel>,
) {
    (m.dom().contains(handle), m.remove(handle))
}

/// Whether the table tracks some handle for an operation of the given type on
/// the given application id and version.
pub open spec fn in_progress_spec(
    m: Map<Seq<char>, OpModel>,
    op: AppsOperationType,
    app_id: Seq<char>,
    version: Seq<char>,
) -> bool {
    exists|h: Seq<char>|
        #[trigger] m.contains_pair(h, OpModel { op, app_id, version })
}

/// The table as a map built left to right from the entry sequence, later
/// entries overriding earlier ones; with unique handles the order is
/// immaterial.
pub open spec fn entries_map(s: Seq<(String, Operation)>) -> Map<Seq<char>, OpModel>
    decreases s.len(),
{
    if s.len() == 0 {
        Map::empty()
    } else {
        entries_map(s.drop_last()).insert(s.last().0@, s.last().1.model())
    }
}

/// No two entries carry the same handle.
pub open spec fn unique_handles(s: Seq<(String, Operation)>) -> bool {
    forall|i: int, j: int| 0 <= i < j < s.len() ==> s[i].0@ != s[j].0@
}

proof fn lemma_entries_map_props(s: Seq<(String, Operation)>)
    ensures
        forall|h: Seq<char>|
            #[trigger] entries_map(s).dom().contains(h) <==> (exists|i: int|
                0 <= i < s.len() && #[trigger] s[i].0@ == h),
        unique_handles(s) ==> forall|i: int|
            0 <= i < s.len() ==> entries_map(s).contains_pair(#[trigger] s[i].0@, s[i].1.model()),
    decreases s.len(),
{
    if s.len() > 0 {
        lemma_entries_map_props(s.drop_last());
        assert forall|h: Seq<char>| #[trigger] entries_map(s).dom().contains(h) implies (
        exists|i: int| 0 <= i < s.len() && #[trigger] s[i].0@ == h) by {
            if h == s.last().0@ {
                assert(s[s.len() - 1].0@ == h);
            } else {
                assert(entries_map(s.drop_last()).dom().contains(h));
                let i = choose|i: int| 0 <= i < s.drop_last().len() && #[trigger] s.drop_last()[i].0@ == h;
                assert(s.drop_last()[i] == s[i]);
                assert(s[i].0@ == h);
            }
        }
        assert forall|h: Seq<char>| (exists|i: int| 0 <= i < s.len() && #[trigger] s[i].0@ == h)
            implies entries_map(s).dom().contains(h) by {
            let i = choose|i: int| 0 <= i < s.len() && #[trigger] s[i].0@ == h;
            if i < s.len() - 1 {
                assert(s.drop_last()[i].0@ == h);
                assert(entries_map(s.drop_last()).dom().contains(h));
            } else {
                assert(h == s.last().0@);
            }
        }
        if unique_handles(s) {
            assert(unique_handles(s.drop_last()));
            assert forall|i: int| 0 <= i < s.len() implies entries_map(s).contains_pair(
                #[trigger] s[i].0@,
                s[i].1.model(),
            ) by {
                if i < s.len() - 1 {
                    assert(s.drop_last()[i].0@ == s[i].0@);
                    assert(entries_map(s.drop_last()).contains_pair(s[i].0@, s[i].1.model()));
                    assert(s[i].0@ != s.last().0@);
                }
            }
        }
    }
}

proof fn lemma_entries_map_remove(s: Seq<(String, Operation)>, i: int)
    requires
        unique_handles(s),
        0 <= i < s.len(),
    ensures
        entries_map(s.remove(i)) == entries_map(s).remove(s[i].0@),
    decreases s.len(),
{
    lemma_entries_map_props(s);
    lemma_entries_map_props(s.drop_last());
    if i == s.len() - 1 {
        assert(s.remove(i) =~= s.drop_last());
        assert(!entries_map(s.drop_last()).dom().contains(s[i].0@));
        assert(entries_map(s.drop_last()) =~= entries_map(s).remove(s[i].0@));
    } else {
        assert(unique_handles(s.drop_last()));
        lemma_entries_map_remove(s.drop_last(), i);
        assert(s.remove(i).last() == s.last());
        assert(s.remove(i).drop_last() =~= s.drop_last().remove(i));
        assert(s[i].0@ != s.last().0@);
        assert(entries_map(s.remove(i)) == entries_map(s.drop_last().remove(i)).insert(
            s.last().0@,
            s.last().1.model(),
        ));
        assert(entries_map(s.drop_last()).remove(s[i].0@).insert(s.last().0@, s.last().1.model())
            =~= entries_map(s).remove(s[i].0@));
    }
}

/// The active-operations table: a mapping from device handle to operation,
/// with an entry for a handle exactly while one completion signal has been
/// seen and neither the other signal nor the timeout has cleared it.
#[derive(Debug)]
pub struct ActiveOperationsTable {
    entries: Vec<(String, Operation)>,
}

impl View for ActiveOperationsTable {
    type V = Map<Seq<char>, OpModel>;

    closed spec fn view(&self) -> Map<Seq<char>, OpModel> {
        entries_map(self.entries@)
    }
}

impl ActiveOperationsTable {
    #[verifier::type_invariant]
    closed spec fn wf(self) -> bool {
        unique_handles(self.entries@)
    }

    /// An empty table.
    pub fn new() -> (r: ActiveOperationsTable)
        ensures
            r@ == Map::<Seq<char>, OpModel>::empty(),
    {
        ActiveOperationsTable { entries: Vec::new() }
    }

    /// The index of the entry holding `handle`, if one does.
    fn position_of(&self, handle: &String) -> (r: Option<usize>)
        ensures
            match r {
                Some(i) => i < self.entries@.len() && self.entries@[i as int].0@ == handle@,
                None => forall|i: int|
                    0 <= i < self.entries@.len() ==> self.entries@[i].0@ != handle@,
            },
    {
        let mut i: usize = 0;
        while i < self.entries.len()
            invariant
                i <= self.entries@.len(),
                forall|j: int| 0 <= j < i ==> self.entries@[j].0@ != handle@,
            decreases self.entries@.len() - i,
        {
            if self.entries[i].0.eq(handle) {
                return Some(i);
            }
            i = i + 1;
        }
        None
    }

    /// Records or reconciles one completion signal for `handle`, as
    /// `register_step` on the table model says.
    pub fn register_or_resolve(&mut self, handle: String, operation: Operation) -> (r:
        RegistrationOutcome)
        ensures
            r == register_step(old(self)@, handle@, operation.model()).0,
            final(self)@ == register_step(old(self)@, handle@, operation.model()).1,
    {
        proof {
            use_type_invariant(&*self);
            lemma_entries_map_props(self.entries@);
        }
        let ghost m0 = self.entries@;
        let pos = self.position_of(&handle);
        let mut entries: Vec<(String, Operation)> = Vec::new();
        core::mem::swap(&mut self.entries, &mut entries);
        let r = match pos {
            Some(i) => {
                proof {
                    lemma_entries_map_remove(m0, i as int);
                    let t = m0.remove(i as int);
                    assert forall|a: int, b: int| 0 <= a < b < t.len() implies t[a].0@ != t[b].0@ by {
                        m0.remove_ensures(i as int);
                    }
                }
                entries.remove(i);
                RegistrationOutcome::Resolved
            },
            None => {
                proof {
                    let t = m0.push((handle, operation));
                    assert(t.drop_last() =~= m0);
                    assert forall|a: int, b: int| 0 <= a < b < t.len() implies t[a].0@ != t[b].0@ by {
                        if b == t.len() - 1 {
                            assert(t[a].0@ == m0[a].0@);
                        }
                    }
                }
                entries.push((handle, operation));
                RegistrationOutcome::Registered
            },
        };
        core::mem::swap(&mut self.entries, &mut entries);
        r
    }

    /// Clears `handle` when its timeout fires, reporting whether the entry
    /// was still present — exactly then the orphaned operation is owed a
    /// best-effort device cancel.
    pub fn remove_expired(&mut self, handle: &String) -> (removed: bool)
        ensures
            removed == timeout_step(old(self)@, handle@).0,
            final(self)@ == timeout_step(old(self)@, handle@).1,
    {
        proof {
            use_type_invariant(&*self);
            lemma_entries_map_props(self.entries@);
        }
        let ghost m0 = self.entries@;
        let pos = self.position_of(handle);
        match pos {
            Some(i) => {
                let mut entries: Vec<(String, Operation)> = Vec::new();
                core::mem::swap(&mut self.entries, &mut entries);
                proof {
                    lemma_entries_map_remove(m0, i as int);
                    let t = m0.remove(i as int);
                    assert forall|a: int, b: int| 0 <= a < b < t.len() implies t[a].0@ != t[b].0@ by {
                        m0.remove_ensures(i as int);
                    }
                }
                entries.remove(i);
                core::mem::swap(&mut self.entries, &mut entries);
                true
            },
            None => {
                proof {
                    assert(entries_map(m0).remove(handle@) =~= entries_map(m0));
                }
                false
            },
        }
    }

    /// Looks for a tracked operation with the given type, application id and
    /// version and returns its handle; used to coalesce duplicate requests.
    /// The model assumes at most one legitimate match, so no ordering among
    /// matches is promised.
    pub fn find_in_progress(&self, operation_type: AppsOperationType, app_id: &str, version: &str)
        -> (r: Option<String>)
        ensures
            match r {
                Some(h) => self@.contains_pair(
                    h@,
                    (OpModel { op: operation_type, app_id: app_id@, version: version@ }),
                ),
                None => !in_progress_spec(self@, operation_type, app_id@, version@),
            },
    {
        proof {
            use_type_invariant(&*self);
            lemma_entries_map_props(self.entries@);
        }
        let ghost target = OpModel { op: operation_type, app_id: app_id@, version: version@ };
        let mut i: usize = 0;
        while i < self.entries.len()
            invariant
                i <= self.entries@.len(),
                target == (OpModel { op: operation_type, app_id: app_id@, version: version@ }),
                forall|j: int| 0 <= j < i ==> self.entries@[j].1.model() != target,
                forall|k: int|
                    0 <= k < self.entries@.len() ==> self@.contains_pair(
                        #[trigger] self.entries@[k].0@,
                        self.entries@[k].1.model(),
                    ),
            decreases self.entries@.len() - i,
        {
            let entry_op = &self.entries[i].1;
            if entry_op.operation_type == operation_type && str_eq(
                entry_op.durable_app_id.as_str(),
                app_id,
            ) && str_eq(entry_op.app_data.version.as_str(), version) {
                let handle = self.entries[i].0.clone();
                proof {
                    assert(self.entries@[i as int].1.model() == target);
                }
                return Some(handle);
            }
            i = i + 1;
        }
        proof {
            assert forall|h: Seq<char>| !#[trigger] self@.contains_pair(h, target) by {
                if self@.contains_pair(h, target) {
                    let j = choose|j: int| 0 <= j < self.entries@.len() && #[trigger] self.entries@[j].0@ == h;
                    assert(self@.contains_pair(self.entries@[j].0@, self.entries@[j].1.model()));
                    assert(self.entries@[j].1.model() == target);
                }
            }
        }
        None
    }
}

/// Reconciliation is commutative: starting from a table that does not track
/// `handle`, the call-return signal and the terminal-event signal may arrive
/// in either order; the first always returns `Registered`, the second always
/// returns `Resolved`, and both orders leave the table exactly as it began.
pub proof fn lemma_register_or_resolve_commutes(
    m: Map<Seq<char>, OpModel>,
    handle: Seq<char>,
    call_op: OpModel,
    event_op: OpModel,
)
    requires
        !m.dom().contains(handle),
    ensures
        ({
            let first = register_step(m, handle, call_op);
            let second = register_step(first.1, handle, event_op);
            first.0 == RegistrationOutcome::Registered && second.0 == RegistrationOutcome::Resolved
                && second.1 == m
        }),
        ({
            let first = register_step(m, handle, event_op);
            let second = register_step(first.1, handle, call_op);
            first.0 == RegistrationOutcome::Registered && second.0 == RegistrationOutcome::Resolved
                && second.1 == m
        }),
{
    assert(m.insert(handle, call_op).remove(handle) =~= m);
    assert(m.insert(handle, event_op).remove(handle) =~= m);
}

/// Coalescing: the moment a first request registers its handle, a lookup for
/// the same operation type, application id and version finds an in-progress
/// operation, so a concurrent duplicate request is answered with the existing
/// handle instead of a second device call.
pub proof fn lemma_registered_operation_found(
    m: Map<Seq<char>, OpModel>,
    handle: Seq<char>,
    op: OpModel,
)
    requires
        !m.dom().contains(handle),
    ensures
        in_progress_spec(register_step(m, handle, op).1, op.op, op.app_id, op.version),
{
    let after = register_step(m, handle, op).1;
    assert(after.contains_pair(handle, OpModel { op: op.op, app_id: op.app_id, version: op.version }));
}

/// Orphan recovery: when only one completion signal ever arrives for a
/// handle, the timeout that was armed at registration still finds the entry,
/// clears it — owing the device exactly one best-effort cancel — and a later
/// spurious firing finds nothing and owes nothing.
pub proof fn lemma_orphan_recovery(m: Map<Seq<char>, OpModel>, handle: Seq<char>, op: OpModel)
    requires
        !m.dom().contains(handle),
    ensures
        ({
            let registered = register_step(m, handle, op).1;
            let fired = timeout_step(registered, handle);
            fired.0 == true && fired.1 == m && timeout_step(fired.1, handle).0 == false
        }),
{
    assert(m.insert(handle, op).remove(handle) =~= m);
}

} // verus!
