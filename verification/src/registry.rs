//! Registries: which kind of binding a role name stands for.
//!
//! There are four of them, one for each way a parameter can be used. They
//! are independent: a role name may occur in several and stand for a
//! different kind in each.

use crate::binding::Kind;
use vstd::prelude::*;

verus! {

/// One line of a registry.
struct Entry {
    role: String,
    kind: Kind,
}

/// A mapping from role names to kinds, in which no role name occurs twice.
pub struct Registry {
    entries: Vec<Entry>,
}

/// The mapping that a list of entries stands for; of two entries with one
/// role name the later one counts.
spec fn mapping(entries: Seq<Entry>) -> Map<Seq<char>, Kind>
    decreases entries.len(),
{
    if entries.len() == 0 {
        Map::empty()
    } else {
        mapping(entries.drop_last()).insert(entries.last().role@, entries.last().kind)
    }
}

/// Whether no role name occurs twice in `entries`.
spec fn distinct(entries: Seq<Entry>) -> bool {
    forall|i: int, j: int|
        0 <= i < entries.len() && 0 <= j < entries.len() && i != j ==> entries[i].role@
            != entries[j].role@
}

proof fn mapping_lacks(entries: Seq<Entry>, role: Seq<char>)
    requires
        forall|i: int| 0 <= i < entries.len() ==> entries[i].role@ != role,
    ensures
        !mapping(entries).dom().contains(role),
    decreases entries.len(),
{
    if entries.len() > 0 {
        let before = entries.drop_last();
        assert forall|i: int| 0 <= i < before.len() implies before[i].role@ != role by {
            assert(before[i] == entries[i]);
        }
        mapping_lacks(before, role);
    }
}

proof fn mapping_holds(entries: Seq<Entry>, at: int)
    requires
        distinct(entries),
        0 <= at < entries.len(),
    ensures
        mapping(entries).dom().contains(entries[at].role@),
        mapping(entries)[entries[at].role@] == entries[at].kind,
    decreases entries.len(),
{
    let before = entries.drop_last();
    if at < entries.len() - 1 {
        assert(distinct(before)) by {
            assert forall|i: int, j: int|
                0 <= i < before.len() && 0 <= j < before.len() && i != j implies before[i].role@
                != before[j].role@ by {
                assert(before[i] == entries[i] && before[j] == entries[j]);
            }
        }
        assert(before[at] == entries[at]);
        mapping_holds(before, at);
        assert(entries.last().role@ != entries[at].role@);
    }
}

proof fn mapping_after_update(entries: Seq<Entry>, at: int, entry: Entry)
    requires
        distinct(entries),
        0 <= at < entries.len(),
        entry.role@ == entries[at].role@,
    ensures
        distinct(entries.update(at, entry)),
        mapping(entries.update(at, entry)) == mapping(entries).insert(entry.role@, entry.kind),
    decreases entries.len(),
{
    let updated = entries.update(at, entry);
    let before = entries.drop_last();
    assert(distinct(updated)) by {
        assert forall|i: int, j: int|
            0 <= i < updated.len() && 0 <= j < updated.len() && i != j implies updated[i].role@
            != updated[j].role@ by {
            assert(updated[i].role@ == entries[i].role@);
            assert(updated[j].role@ == entries[j].role@);
        }
    }
    if at == entries.len() - 1 {
        assert(updated.drop_last() == before);
        assert(mapping(updated) == mapping(entries).insert(entry.role@, entry.kind));
    } else {
        assert(distinct(before)) by {
            assert forall|i: int, j: int|
                0 <= i < before.len() && 0 <= j < before.len() && i != j implies before[i].role@
                != before[j].role@ by {
                assert(before[i] == entries[i] && before[j] == entries[j]);
            }
        }
        assert(before[at] == entries[at]);
        mapping_after_update(before, at, entry);
        assert(updated.drop_last() == before.update(at, entry));
        assert(updated.last() == entries.last());
        assert(entries.last().role@ != entry.role@);
        assert(mapping(updated) == mapping(entries).insert(entry.role@, entry.kind));
    }
}

/// The role names that can be the entry trigger of a function.
pub open spec fn triggers() -> Map<Seq<char>, Kind> {
    Map::<Seq<char>, Kind>::empty().insert("HttpRequest"@, Kind::HttpTrigger).insert("TimerInfo"@, Kind::TimerTrigger).insert("QueueTrigger"@, Kind::QueueTrigger).insert("BlobTrigger"@, Kind::BlobTrigger).insert("EventGridEvent"@, Kind::EventGridTrigger).insert("EventHubTrigger"@, Kind::EventHubTrigger)
}

/// The role names that can be a named input.
pub open spec fn input_bindings() -> Map<Seq<char>, Kind> {
    Map::<Seq<char>, Kind>::empty().insert("Blob"@, Kind::Blob).insert("Table"@, Kind::Table)
}

/// The role names that can be an input, an output, or both at once.
pub open spec fn input_output_bindings() -> Map<Seq<char>, Kind> {
    Map::<Seq<char>, Kind>::empty().insert("BlobTrigger"@, Kind::BlobTrigger).insert("Blob"@, Kind::Blob)
}

/// The role names that can be a named output.
pub open spec fn output_bindings() -> Map<Seq<char>, Kind> {
    Map::<Seq<char>, Kind>::empty().insert("HttpResponse"@, Kind::Http).insert("QueueMessage"@, Kind::Queue).insert("Blob"@, Kind::Blob).insert("Table"@, Kind::Table).insert("EventHubMessage"@, Kind::EventHub)
}

impl View for Registry {
    type V = Map<Seq<char>, Kind>;

    closed spec fn view(&self) -> Map<Seq<char>, Kind> {
        mapping(self.entries@)
    }
}

impl Registry {
    #[verifier::type_invariant]
    spec fn no_role_twice(self) -> bool {
        distinct(self.entries@)
    }

    /// A registry without entries.
    pub fn new() -> (registry: Registry)
        ensures
            registry@ == Map::<Seq<char>, Kind>::empty(),
    {
        Registry { entries: Vec::new() }
    }

    /// The position of the entry for `role`, or the number of entries.
    fn position(&self, role: &str) -> (at: usize)
        ensures
            at <= self.entries.len(),
            at < self.entries.len() ==> self.entries[at as int].role@ == role@,
            at == self.entries.len() ==> forall|i: int|
                0 <= i < self.entries.len() ==> self.entries[i].role@ != role@,
    {
        let wanted = role.to_owned();
        let mut at: usize = 0;
        while at < self.entries.len() && self.entries[at].role != wanted
            invariant
                at <= self.entries.len(),
                wanted@ == role@,
                forall|i: int| 0 <= i < at ==> self.entries[i].role@ != role@,
            decreases self.entries.len() - at,
        {
            at += 1;
        }
        at
    }

    /// The kind that `role` stands for here, if the registry knows the role.
    pub fn get(&self, role: &str) -> (kind: Option<Kind>)
        ensures
            kind == (if self@.dom().contains(role@) {
                Some(self@[role@])
            } else {
                None
            }),
    {
        let at = self.position(role);
        proof {
            use_type_invariant(self);
            if at < self.entries.len() {
                mapping_holds(self.entries@, at as int);
            } else {
                mapping_lacks(self.entries@, role@);
            }
        }
        if at < self.entries.len() {
            Some(self.entries[at].kind)
        } else {
            None
        }
    }

    /// Whether the registry knows `role`.
    pub fn contains_key(&self, role: &str) -> (known: bool)
        ensures
            known == self@.dom().contains(role@),
    {
        self.get(role).is_some()
    }

    /// The entries of the registry, each role name with the kind it stands
    /// for. Every role that the registry knows is listed, and listed once.
    pub fn entries(&self) -> (list: Vec<(String, Kind)>)
        ensures
            forall|i: int|
                0 <= i < list.len() ==> self@.contains_pair((#[trigger] list[i]).0@, list[i].1),
            forall|role: Seq<char>|
                self@.dom().contains(role) ==> exists|i: int|
                    0 <= i < list.len() && (#[trigger] list[i]).0@ == role,
            forall|i: int, j: int|
                0 <= i < list.len() && 0 <= j < list.len() && i != j ==> (#[trigger] list[i]).0@
                    != (#[trigger] list[j]).0@,
    {
        proof {
            use_type_invariant(self);
        }
        let mut list: Vec<(String, Kind)> = Vec::new();
        let mut at: usize = 0;
        while at < self.entries.len()
            invariant
                at <= self.entries.len(),
                list.len() == at,
                forall|i: int|
                    0 <= i < at ==> (#[trigger] list[i]).0@ == self.entries[i].role@ && list[i].1
                        == self.entries[i].kind,
            decreases self.entries.len() - at,
        {
            list.push((self.entries[at].role.clone(), self.entries[at].kind));
            at += 1;
        }
        proof {
            assert forall|i: int| 0 <= i < list.len() implies self@.contains_pair(
                (#[trigger] list[i]).0@,
                list[i].1,
            ) by {
                mapping_holds(self.entries@, i);
            }
            assert forall|role: Seq<char>| self@.dom().contains(role) implies exists|i: int|
                0 <= i < list.len() && (#[trigger] list[i]).0@ == role by {
                if !(exists|i: int|
                    0 <= i < self.entries.len() && (#[trigger] self.entries[i]).role@ == role) {
                    mapping_lacks(self.entries@, role);
                }
                let found = choose|i: int|
                    0 <= i < self.entries.len() && (#[trigger] self.entries[i]).role@ == role;
                assert(list[found].0@ == role);
            }
        }
        list
    }

    /// Lets `role` stand for `kind` from now on, and returns the kind it
    /// stood for before, if any. No other role is touched.
    pub fn insert(&mut self, role: &str, kind: Kind) -> (before: Option<Kind>)
        ensures
            final(self)@ == old(self)@.insert(role@, kind),
            before == (if old(self)@.dom().contains(role@) {
                Some(old(self)@[role@])
            } else {
                None
            }),
    {
        let at = self.position(role);
        let entry = Entry { role: role.to_owned(), kind };
        proof {
            use_type_invariant(&*self);
        }
        let ghost held = self.entries@;
        let mut entries: Vec<Entry> = Vec::new();
        core::mem::swap(&mut self.entries, &mut entries);
        let before = if at < entries.len() {
            let before = entries[at].kind;
            proof {
                mapping_holds(held, at as int);
                mapping_after_update(held, at as int, entry);
            }
            entries.set(at, entry);
            Some(before)
        } else {
            proof {
                mapping_lacks(held, role@);
                assert(held.push(entry).drop_last() == held);
                assert(distinct(held.push(entry)));
            }
            entries.push(entry);
            None
        };
        core::mem::swap(&mut self.entries, &mut entries);
        before
    }

    /// The registry of the role names that can be the entry trigger of a function.
    pub fn triggers() -> (registry: Registry)
        ensures
            registry@ == self::triggers(),
    {
        let mut registry = Registry::new();
        registry.insert("HttpRequest", Kind::HttpTrigger);
        registry.insert("TimerInfo", Kind::TimerTrigger);
        registry.insert("QueueTrigger", Kind::QueueTrigger);
        registry.insert("BlobTrigger", Kind::BlobTrigger);
        registry.insert("EventGridEvent", Kind::EventGridTrigger);
        registry.insert("EventHubTrigger", Kind::EventHubTrigger);
        registry
    }

    /// The registry of the role names that can be a named input.
    pub fn input_bindings() -> (registry: Registry)
        ensures
            registry@ == self::input_bindings(),
    {
        let mut registry = Registry::new();
        registry.insert("Blob", Kind::Blob);
        registry.insert("Table", Kind::Table);
        registry
    }

    /// The registry of the role names that can be an input, an output, or both at once.
    pub fn input_output_bindings() -> (registry: Registry)
        ensures
            registry@ == self::input_output_bindings(),
    {
        let mut registry = Registry::new();
        registry.insert("BlobTrigger", Kind::BlobTrigger);
        registry.insert("Blob", Kind::Blob);
        registry
    }

    /// The registry of the role names that can be a named output.
    pub fn output_bindings() -> (registry: Registry)
        ensures
            registry@ == self::output_bindings(),
    {
        let mut registry = Registry::new();
        registry.insert("HttpResponse", Kind::Http);
        registry.insert("QueueMessage", Kind::Queue);
        registry.insert("Blob", Kind::Blob);
        registry.insert("Table", Kind::Table);
        registry.insert("EventHubMessage", Kind::EventHub);
        registry
    }
}

} // verus!
