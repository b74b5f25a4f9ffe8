use std::collections::HashMap;

use vstd::prelude::*;
use vstd::std_specs::hash::group_hash_axioms;

use crate::error::HubError;
use crate::hub_thing::{HubThing, HubThingView};
use crate::hub_thing::published_step;
use crate::message::PartialThingMessage;
use crate::runner::{CarePackage, RunnerConfig};
use crate::model::ThingRequest;
use crate::state::{command_for, teardown_of, transition, Command, Outcome, Teardown, ThingSyncState};

verus! {

broadcast use group_hash_axioms;

/// The registry of things.
///
/// Things are keyed by serial number (the primary index). Things that the
/// cloud knows are also reachable by their cloud UUID (the secondary index).
#[derive(Debug, Clone)]
pub struct ThingDb {
    primary: Vec<(String, HubThing)>,
    secondary: HashMap<u128, String>,
}

/// The registry as two maps: serial number to thing, and UUID to serial.
pub struct RegistryView {
    pub primary: Map<Seq<char>, HubThingView>,
    pub secondary: Map<u128, Seq<char>>,
}

pub open spec fn has_serial(s: Seq<(String, HubThing)>, k: Seq<char>) -> bool {
    exists|i: int| 0 <= i < s.len() && #[trigger] s[i].0@ == k
}

pub open spec fn serial_index(s: Seq<(String, HubThing)>, k: Seq<char>) -> int {
    choose|i: int| 0 <= i < s.len() && #[trigger] s[i].0@ == k
}

pub open spec fn unique_serials(s: Seq<(String, HubThing)>) -> bool {
    forall|i: int, j: int|
        #![trigger s[i], s[j]]
        0 <= i < s.len() && 0 <= j < s.len() && i != j ==> s[i].0@ != s[j].0@
}

pub open spec fn primary_view(s: Seq<(String, HubThing)>) -> Map<Seq<char>, HubThingView> {
    Map::new(|k: Seq<char>| has_serial(s, k), |k: Seq<char>| s[serial_index(s, k)].1@)
}

/// Every secondary entry leads to an active thing that carries that UUID.
pub open spec fn index_consistent(v: RegistryView) -> bool {
    forall|u: u128|
        #[trigger] v.secondary.contains_key(u) ==> {
            &&& v.primary.contains_key(v.secondary[u])
            &&& v.primary[v.secondary[u]].state matches ThingSyncState::Active(m)
            &&& m.thing.id == u
        }
}

/// The secondary index without the entries that lead to `serial`.
pub open spec fn unindexed(sec: Map<u128, Seq<char>>, serial: Seq<char>) -> Map<u128, Seq<char>> {
    Map::new(|u: u128| sec.contains_key(u) && sec[u] != serial, |u: u128| sec[u])
}

/// The registry without the thing `serial` and without any secondary entry
/// that leads to it.
pub open spec fn unpaired(v: RegistryView, serial: Seq<char>) -> RegistryView {
    RegistryView { primary: v.primary.remove(serial), secondary: unindexed(v.secondary, serial) }
}

proof fn lemma_index(s: Seq<(String, HubThing)>, i: int)
    requires
        unique_serials(s),
        0 <= i < s.len(),
    ensures
        has_serial(s, s[i].0@),
        serial_index(s, s[i].0@) == i,
        primary_view(s).contains_key(s[i].0@),
        primary_view(s)[s[i].0@] == s[i].1@,
{
    assert(s[i].0@ == s[i].0@);
    let j = serial_index(s, s[i].0@);
    assert(s[j].0@ == s[i].0@);
}

proof fn lemma_push(s: Seq<(String, HubThing)>, e: (String, HubThing))
    requires
        unique_serials(s),
        !has_serial(s, e.0@),
    ensures
        unique_serials(s.push(e)),
        primary_view(s.push(e)) == primary_view(s).insert(e.0@, e.1@),
{
    let t = s.push(e);
    assert forall|i: int, j: int|
        #![trigger t[i], t[j]]
        0 <= i < t.len() && 0 <= j < t.len() && i != j implies t[i].0@ != t[j].0@ by {
        if i < s.len() && j < s.len() {
            assert(s[i] == t[i] && s[j] == t[j]);
        } else if i < s.len() {
            assert(t[i] == s[i]);
        } else {
            assert(t[j] == s[j]);
        }
    }
    assert forall|k: Seq<char>| has_serial(t, k) == (has_serial(s, k) || k == e.0@) by {
        if has_serial(s, k) {
            let i = choose|i: int| 0 <= i < s.len() && #[trigger] s[i].0@ == k;
            assert(t[i] == s[i]);
        }
        if k == e.0@ {
            assert(t[s.len() as int] == e);
        }
        if has_serial(t, k) && k != e.0@ {
            let i = choose|i: int| 0 <= i < t.len() && #[trigger] t[i].0@ == k;
            assert(i < s.len());
            assert(t[i] == s[i]);
        }
    }
    assert forall|k: Seq<char>| #[trigger] has_serial(t, k) implies primary_view(t)[k]
        == primary_view(s).insert(e.0@, e.1@)[k] by {
        if k == e.0@ {
            lemma_index(t, s.len() as int);
        } else {
            let i = choose|i: int| 0 <= i < s.len() && #[trigger] s[i].0@ == k;
            assert(t[i] == s[i]);
            lemma_index(t, i);
            lemma_index(s, i);
        }
    }
    assert(primary_view(t) =~= primary_view(s).insert(e.0@, e.1@));
}

proof fn lemma_remove(s: Seq<(String, HubThing)>, i: int)
    requires
        unique_serials(s),
        0 <= i < s.len(),
    ensures
        unique_serials(s.remove(i)),
        primary_view(s.remove(i)) == primary_view(s).remove(s[i].0@),
{
    let t = s.remove(i);
    let key = s[i].0@;
    assert forall|a: int, b: int|
        #![trigger t[a], t[b]]
        0 <= a < t.len() && 0 <= b < t.len() && a != b implies t[a].0@ != t[b].0@ by {
        let a2 = if a < i { a } else { a + 1 };
        let b2 = if b < i { b } else { b + 1 };
        assert(t[a] == s[a2] && t[b] == s[b2]);
    }
    assert forall|k: Seq<char>| has_serial(t, k) == (has_serial(s, k) && k != key) by {
        if has_serial(t, k) {
            let a = choose|a: int| 0 <= a < t.len() && #[trigger] t[a].0@ == k;
            let a2 = if a < i { a } else { a + 1 };
            assert(t[a] == s[a2]);
            assert(s[a2].0@ == k);
        }
        if has_serial(s, k) && k != key {
            let a = choose|a: int| 0 <= a < s.len() && #[trigger] s[a].0@ == k;
            if a < i {
                assert(t[a] == s[a]);
            } else {
                assert(a != i);
                assert(t[a - 1] == s[a]);
            }
        }
    }
    assert forall|k: Seq<char>| #[trigger] has_serial(t, k) implies primary_view(t)[k]
        == primary_view(s)[k] by {
        let a = choose|a: int| 0 <= a < t.len() && #[trigger] t[a].0@ == k;
        let a2 = if a < i { a } else { a + 1 };
        assert(t[a] == s[a2]);
        lemma_index(t, a);
        lemma_index(s, a2);
    }
    assert(primary_view(t) =~= primary_view(s).remove(key));
}

proof fn lemma_update(s: Seq<(String, HubThing)>, i: int, e: (String, HubThing))
    requires
        unique_serials(s),
        0 <= i < s.len(),
        e.0@ == s[i].0@,
    ensures
        unique_serials(s.update(i, e)),
        primary_view(s.update(i, e)) == primary_view(s).insert(e.0@, e.1@),
{
    let t = s.update(i, e);
    assert forall|a: int, b: int|
        #![trigger t[a], t[b]]
        0 <= a < t.len() && 0 <= b < t.len() && a != b implies t[a].0@ != t[b].0@ by {
        assert(s[a].0@ == t[a].0@ && s[b].0@ == t[b].0@);
    }
    assert forall|k: Seq<char>| has_serial(t, k) == has_serial(s, k) by {
        if has_serial(t, k) {
            let a = choose|a: int| 0 <= a < t.len() && #[trigger] t[a].0@ == k;
            assert(s[a].0@ == k);
        }
        if has_serial(s, k) {
            let a = choose|a: int| 0 <= a < s.len() && #[trigger] s[a].0@ == k;
            assert(t[a].0@ == k);
        }
    }
    assert forall|k: Seq<char>| #[trigger] has_serial(t, k) implies primary_view(t)[k]
        == primary_view(s).insert(e.0@, e.1@)[k] by {
        let a = choose|a: int| 0 <= a < t.len() && #[trigger] t[a].0@ == k;
        lemma_index(t, a);
    }
    lemma_index(s, i);
    assert(primary_view(t) =~= primary_view(s).insert(e.0@, e.1@));
}

impl View for ThingDb {
    type V = RegistryView;

    closed spec fn view(&self) -> RegistryView {
        RegistryView {
            primary: primary_view(self.primary@),
            secondary: self.secondary@.map_values(|s: String| s@),
        }
    }
}

impl ThingDb {
    /// The registry's invariant: serial numbers are unique and the
    /// secondary index is consistent with the primary one.
    pub closed spec fn wf(&self) -> bool {
        &&& unique_serials(self.primary@)
        &&& index_consistent(self@)
    }

    /// An empty registry.
    pub fn new() -> (r: Self)
        ensures
            r.wf(),
            r@.primary == Map::<Seq<char>, HubThingView>::empty(),
            r@.secondary == Map::<u128, Seq<char>>::empty(),
    {
        let r = ThingDb { primary: Vec::new(), secondary: HashMap::new() };
        assert(r@.primary =~= Map::<Seq<char>, HubThingView>::empty());
        assert(r@.secondary =~= Map::<u128, Seq<char>>::empty());
        r
    }

    fn find(&self, serial: &String) -> (r: Option<usize>)
        requires
            self.wf(),
        ensures
            match r {
                Some(i) => {
                    &&& i < self.primary@.len()
                    &&& self.primary@[i as int].0@ == serial@
                    &&& self@.primary.contains_key(serial@)
                    &&& self@.primary[serial@] == self.primary@[i as int].1@
                },
                None => !self@.primary.contains_key(serial@),
            },
    {
        let mut i: usize = 0;
        while i < self.primary.len()
            invariant
                self.wf(),
                i <= self.primary@.len(),
                forall|j: int| 0 <= j < i ==> #[trigger] self.primary@[j].0@ != serial@,
            decreases self.primary@.len() - i,
        {
            if self.primary[i].0 == *serial {
                proof {
                    lemma_index(self.primary@, i as int);
                }
                return Some(i);
            }
            i = i + 1;
        }
        None
    }

    /// Whether a thing with this serial number is registered.
    pub fn contains_serial(&self, serial_number: &str) -> (r: bool)
        requires
            self.wf(),
        ensures
            r == self@.primary.contains_key(serial_number@),
    {
        let key = serial_number.to_owned();
        self.find(&key).is_some()
    }

    /// The thing registered under a serial number.
    pub fn get(&self, serial_number: &str) -> (r: Option<&HubThing>)
        requires
            self.wf(),
        ensures
            match r {
                Some(t) => self@.primary.contains_key(serial_number@) && t@ == self@.primary[serial_number@],
                None => !self@.primary.contains_key(serial_number@),
            },
    {
        let key = serial_number.to_owned();
        match self.find(&key) {
            Some(i) => Some(&self.primary[i].1),
            None => None,
        }
    }

    /// Registers a thing in the `Created` state, with empty queues, unless
    /// its serial number is taken.
    pub fn add_thing(&mut self, new_thing: ThingRequest) -> (r: Result<(), HubError>)
        requires
            old(self).wf(),
        ensures
            final(self).wf(),
            old(self)@.primary.contains_key(new_thing.serial_number@) ==> {
                &&& r == Err::<(), HubError>(HubError::DuplicateSerial)
                &&& final(self)@ == old(self)@
            },
            !old(self)@.primary.contains_key(new_thing.serial_number@) ==> {
                &&& r is Ok
                &&& final(self)@.primary == old(self)@.primary.insert(
                    new_thing.serial_number@,
                    HubThingView {
                        state: ThingSyncState::Created(new_thing),
                        outbox: Seq::empty(),
                        inbox: Seq::empty(),
                    },
                )
                &&& final(self)@.secondary == old(self)@.secondary
            },
    {
        if self.find(&new_thing.serial_number).is_some() {
            return Err(HubError::DuplicateSerial);
        }
        let key = new_thing.serial_number.clone();
        let entry = (key, HubThing::new(ThingSyncState::Created(new_thing)));
        proof {
            lemma_push(self.primary@, entry);
        }
        self.primary.push(entry);
        proof {
            assert(self@.secondary == old(self)@.secondary);
        }
        Ok(())
    }

    /// Removes a thing and the secondary entry that leads to it, and says
    /// what to release: its session and its certificate files.
    pub fn unpair(&mut self, serial_number: &str) -> (r: Result<Teardown, HubError>)
        requires
            old(self).wf(),
        ensures
            final(self).wf(),
            final(self)@ == unpaired(old(self)@, serial_number@),
            !old(self)@.primary.contains_key(serial_number@) ==> {
                &&& r matches Err(e) && e == HubError::UnknownSerial
                &&& final(self)@ == old(self)@
            },
            old(self)@.primary.contains_key(serial_number@) ==> {
                &&& r matches Ok(t)
                &&& t.serial@ == serial_number@
                &&& teardown_of(old(self)@.primary[serial_number@].state, t.serial, t)
            },
    {
        let key = serial_number.to_owned();
        let i = match self.find(&key) {
            Some(i) => i,
            None => {
                proof {
                    assert(self@.primary =~= self@.primary.remove(serial_number@));
                    assert(self@.secondary =~= unindexed(self@.secondary, serial_number@));
                }
                return Err(HubError::UnknownSerial);
            },
        };
        let ghost old_view = self@;
        proof {
            lemma_remove(self.primary@, i as int);
            lemma_index(self.primary@, i as int);
        }
        let (k, thing) = self.primary.remove(i);
        let ghost key_view = k@;
        if let ThingSyncState::Active(m) = &thing.thing {
            let id = m.thing.id;
            let points_here = match self.secondary.get(&id) {
                Some(s) => *s == k,
                None => false,
            };
            if points_here {
                self.secondary.remove(&id);
            }
        }
        proof {
            assert(self@.secondary =~= unindexed(old_view.secondary, key_view));
            assert(self@.primary == old_view.primary.remove(key_view));
            assert(index_consistent(self@));
        }
        Ok(thing.extract(k))
    }

    /// Removes every thing, empties the secondary index, and says what to
    /// release for each removed thing.
    pub fn unpair_all(&mut self) -> (r: Vec<Teardown>)
        requires
            old(self).wf(),
        ensures
            final(self).wf(),
            final(self)@.primary == Map::<Seq<char>, HubThingView>::empty(),
            final(self)@.secondary == Map::<u128, Seq<char>>::empty(),
            forall|k: Seq<char>|
                old(self)@.primary.contains_key(k) <==> exists|i: int|
                    0 <= i < r@.len() && #[trigger] r@[i].serial@ == k,
            forall|i: int|
                0 <= i < r@.len() ==> teardown_of(
                    old(self)@.primary[#[trigger] r@[i].serial@].state,
                    r@[i].serial,
                    r@[i],
                ),
            forall|i: int, j: int|
                #![trigger r@[i], r@[j]]
                0 <= i < r@.len() && 0 <= j < r@.len() && i != j ==> r@[i].serial@ != r@[j].serial@,
    {
        self.secondary.clear();
        let mut things: Vec<(String, HubThing)> = Vec::new();
        core::mem::swap(&mut things, &mut self.primary);
        let ghost all = things@;
        let mut out: Vec<Teardown> = Vec::new();
        let mut i: usize = 0;
        while i < things.len()
            invariant
                things@ == all,
                unique_serials(all),
                i <= all.len(),
                out@.len() == i,
                forall|j: int| 0 <= j < i ==> (#[trigger] out@[j]).serial == all[j].0,
                forall|j: int| 0 <= j < i ==> teardown_of(all[j].1.thing, all[j].0, #[trigger] out@[j]),
            decreases all.len() - i,
        {
            let t = things[i].1.thing.consume_ref(&things[i].0);
            out.push(t);
            i = i + 1;
        }
        proof {
            let pv = primary_view(all);
            assert(pv == old(self)@.primary);
            assert forall|k: Seq<char>| pv.contains_key(k) <==> exists|i: int|
                0 <= i < out@.len() && #[trigger] out@[i].serial@ == k by {
                if pv.contains_key(k) {
                    let a = choose|a: int| 0 <= a < all.len() && #[trigger] all[a].0@ == k;
                    assert(out@[a].serial@ == k);
                }
                if exists|i: int| 0 <= i < out@.len() && #[trigger] out@[i].serial@ == k {
                    let a = choose|a: int| 0 <= a < out@.len() && #[trigger] out@[a].serial@ == k;
                    assert(all[a].0@ == k);
                }
            }
            assert forall|a: int| 0 <= a < out@.len() implies teardown_of(
                pv[#[trigger] out@[a].serial@].state, out@[a].serial, out@[a]) by {
                lemma_index(all, a);
            }
            assert forall|a: int, b: int|
                #![trigger out@[a], out@[b]]
                0 <= a < out@.len() && 0 <= b < out@.len() && a != b implies out@[a].serial@
                != out@[b].serial@ by {
                assert(all[a].0@ != all[b].0@);
            }
            assert(self@.primary =~= Map::<Seq<char>, HubThingView>::empty());
            assert(self@.secondary =~= Map::<u128, Seq<char>>::empty());
        }
        out
    }

    /// Queues messages for the cloud on behalf of a thing.
    pub fn hub_tx(&mut self, serial_number: &str, msgs: &[PartialThingMessage]) -> (r: Result<(), HubError>)
        requires
            old(self).wf(),
        ensures
            final(self).wf(),
            final(self)@.secondary == old(self)@.secondary,
            !old(self)@.primary.contains_key(serial_number@) ==> {
                &&& r == Err::<(), HubError>(HubError::UnknownSerial)
                &&& final(self)@ == old(self)@
            },
            old(self)@.primary.contains_key(serial_number@) ==> {
                let before = old(self)@.primary[serial_number@];
                &&& r is Ok
                &&& final(self)@.primary == old(self)@.primary.insert(
                    serial_number@,
                    HubThingView { outbox: before.outbox + msgs@, ..before },
                )
            },
    {
        let key = serial_number.to_owned();
        let i = match self.find(&key) {
            Some(i) => i,
            None => {
                return Err(HubError::UnknownSerial);
            },
        };
        let ghost s0 = self.primary@;
        let (k, mut thing) = self.primary.remove(i);
        thing.push_outbound(msgs);
        let entry = (k, thing);
        proof {
            lemma_update(s0, i as int, entry);
            lemma_index(s0, i as int);
        }
        self.primary.insert(i, entry);
        proof {
            assert(self.primary@ =~= s0.update(i as int, entry));
            assert(index_consistent(self@));
        }
        Ok(())
    }

    /// Takes every message that came from the cloud for a thing.
    pub fn hub_rx(&mut self, serial_number: &str) -> (r: Result<Vec<PartialThingMessage>, HubError>)
        requires
            old(self).wf(),
        ensures
            final(self).wf(),
            final(self)@.secondary == old(self)@.secondary,
            !old(self)@.primary.contains_key(serial_number@) ==> {
                &&& r matches Err(e) && e == HubError::UnknownSerial
                &&& final(self)@ == old(self)@
            },
            old(self)@.primary.contains_key(serial_number@) ==> {
                let before = old(self)@.primary[serial_number@];
                &&& r matches Ok(msgs) && msgs@ == before.inbox
                &&& final(self)@.primary == old(self)@.primary.insert(
                    serial_number@,
                    HubThingView { inbox: Seq::empty(), ..before },
                )
            },
    {
        let key = serial_number.to_owned();
        let i = match self.find(&key) {
            Some(i) => i,
            None => {
                return Err(HubError::UnknownSerial);
            },
        };
        let ghost s0 = self.primary@;
        let (k, mut thing) = self.primary.remove(i);
        let msgs = thing.drain_inbound();
        let entry = (k, thing);
        proof {
            lemma_update(s0, i as int, entry);
            lemma_index(s0, i as int);
            assert(entry.1@.inbox =~= Seq::<PartialThingMessage>::empty());
        }
        self.primary.insert(i, entry);
        proof {
            assert(self.primary@ =~= s0.update(i as int, entry));
            assert(index_consistent(self@));
        }
        Ok(msgs)
    }

    /// Queues a message that the broker delivered for a thing.
    pub fn deliver(&mut self, serial_number: &str, msg: PartialThingMessage) -> (r: Result<(), HubError>)
        requires
            old(self).wf(),
        ensures
            final(self).wf(),
            final(self)@.secondary == old(self)@.secondary,
            !old(self)@.primary.contains_key(serial_number@) ==> {
                &&& r == Err::<(), HubError>(HubError::UnknownSerial)
                &&& final(self)@ == old(self)@
            },
            old(self)@.primary.contains_key(serial_number@) ==> {
                let before = old(self)@.primary[serial_number@];
                &&& r is Ok
                &&& final(self)@.primary == old(self)@.primary.insert(
                    serial_number@,
                    HubThingView { inbox: before.inbox.push(msg), ..before },
                )
            },
    {
        let key = serial_number.to_owned();
        let i = match self.find(&key) {
            Some(i) => i,
            None => {
                return Err(HubError::UnknownSerial);
            },
        };
        let ghost s0 = self.primary@;
        let (k, mut thing) = self.primary.remove(i);
        thing.push_inbound(msg);
        let entry = (k, thing);
        proof {
            lemma_update(s0, i as int, entry);
            lemma_index(s0, i as int);
        }
        self.primary.insert(i, entry);
        proof {
            assert(self.primary@ =~= s0.update(i as int, entry));
            assert(index_consistent(self@));
        }
        Ok(())
    }

    /// What a thing asks for at the start of a tick. The registry does not
    /// change.
    pub fn next_command(&self, serial_number: &str, package: &CarePackage) -> (r: Result<Command, HubError>)
        requires
            self.wf(),
        ensures
            !self@.primary.contains_key(serial_number@) ==> r == Err::<Command, HubError>(
                HubError::UnknownSerial,
            ),
            self@.primary.contains_key(serial_number@) ==> command_for(
                self@.primary[serial_number@].state,
                package.token_opt is Some,
                package.config,
                r,
            ),
    {
        let key = serial_number.to_owned();
        match self.find(&key) {
            Some(i) => self.primary[i].1.next_command(package),
            None => Err(HubError::UnknownSerial),
        }
    }

    /// Applies what came back from a thing's command. A thing that has just
    /// become active is entered in the secondary index under its UUID.
    /// Returns the thing's next command and that UUID.
    pub fn manage(&mut self, serial_number: &str, outcome: Outcome, config: &RunnerConfig) -> (r: Result<
        (Command, Option<u128>),
        HubError,
    >)
        requires
            old(self).wf(),
        ensures
            final(self).wf(),
            !old(self)@.primary.contains_key(serial_number@) ==> {
                &&& r matches Err(e) && e == HubError::UnknownSerial
                &&& final(self)@ == old(self)@
            },
            old(self)@.primary.contains_key(serial_number@) ==> {
                let before = old(self)@.primary[serial_number@];
                let after = final(self)@.primary[serial_number@];
                &&& r matches Ok((cmd, activated))
                &&& transition(before.state, outcome, *config, after.state, cmd, activated)
                &&& after.outbox == before.outbox
                &&& after.inbox == before.inbox
                &&& final(self)@.primary == old(self)@.primary.insert(serial_number@, after)
                &&& final(self)@.secondary == match activated {
                    Some(u) => old(self)@.secondary.insert(u, serial_number@),
                    None => old(self)@.secondary,
                }
            },
    {
        let key = serial_number.to_owned();
        let i = match self.find(&key) {
            Some(i) => i,
            None => {
                return Err(HubError::UnknownSerial);
            },
        };
        let ghost s0 = self.primary@;
        let ghost v0 = self@;
        let (k, mut thing) = self.primary.remove(i);
        let (cmd, activated) = thing.manage(outcome, config);
        if let Some(u) = activated {
            self.secondary.insert(u, k.clone());
        }
        let entry = (k, thing);
        proof {
            lemma_update(s0, i as int, entry);
            lemma_index(s0, i as int);
        }
        self.primary.insert(i, entry);
        proof {
            assert(self.primary@ =~= s0.update(i as int, entry));
            assert(self@.primary == v0.primary.insert(serial_number@, entry.1@));
            lemma_index(self.primary@, i as int);
            match activated {
                Some(u) => {
                    assert(self@.secondary =~= v0.secondary.insert(u, serial_number@));
                },
                None => {
                    assert(self@.secondary =~= v0.secondary);
                },
            }
            assert(index_consistent(self@));
        }
        Ok((cmd, activated))
    }

    /// Takes a thing's oldest outbound message, cut to ASCII, when its
    /// session is attached.
    pub fn take_outbound(&mut self, serial_number: &str) -> (r: Option<PartialThingMessage>)
        requires
            old(self).wf(),
        ensures
            final(self).wf(),
            final(self)@.secondary == old(self)@.secondary,
            !old(self)@.primary.contains_key(serial_number@) ==> r is None && final(self)@ == old(self)@,
            old(self)@.primary.contains_key(serial_number@) ==> {
                let before = old(self)@.primary[serial_number@];
                let after = final(self)@.primary[serial_number@];
                &&& published_step(before, after, r)
                &&& final(self)@.primary == old(self)@.primary.insert(serial_number@, after)
            },
    {
        let key = serial_number.to_owned();
        let i = match self.find(&key) {
            Some(i) => i,
            None => {
                return None;
            },
        };
        let ghost s0 = self.primary@;
        let (k, mut thing) = self.primary.remove(i);
        let r = thing.take_outbound();
        let entry = (k, thing);
        proof {
            lemma_update(s0, i as int, entry);
            lemma_index(s0, i as int);
        }
        self.primary.insert(i, entry);
        proof {
            assert(self.primary@ =~= s0.update(i as int, entry));
            assert(index_consistent(self@));
            lemma_index(self.primary@, i as int);
        }
        r
    }

    /// The serial numbers of all registered things, each once.
    pub fn serials(&self) -> (r: Vec<String>)
        requires
            self.wf(),
        ensures
            forall|k: Seq<char>|
                self@.primary.contains_key(k) <==> exists|i: int|
                    0 <= i < r@.len() && #[trigger] r@[i]@ == k,
            forall|i: int, j: int|
                #![trigger r@[i], r@[j]]
                0 <= i < r@.len() && 0 <= j < r@.len() && i != j ==> r@[i]@ != r@[j]@,
    {
        let mut out: Vec<String> = Vec::new();
        let mut i: usize = 0;
        while i < self.primary.len()
            invariant
                self.wf(),
                i <= self.primary@.len(),
                out@.len() == i,
                forall|j: int| 0 <= j < i ==> #[trigger] out@[j] == self.primary@[j].0,
            decreases self.primary@.len() - i,
        {
            out.push(self.primary[i].0.clone());
            i = i + 1;
        }
        proof {
            let all = self.primary@;
            assert forall|k: Seq<char>| self@.primary.contains_key(k) <==> exists|i: int|
                0 <= i < out@.len() && #[trigger] out@[i]@ == k by {
                if self@.primary.contains_key(k) {
                    let a = choose|a: int| 0 <= a < all.len() && #[trigger] all[a].0@ == k;
                    assert(out@[a]@ == k);
                }
                if exists|i: int| 0 <= i < out@.len() && #[trigger] out@[i]@ == k {
                    let a = choose|a: int| 0 <= a < out@.len() && #[trigger] out@[a]@ == k;
                    assert(all[a].0@ == k);
                }
            }
            assert forall|a: int, b: int|
                #![trigger out@[a], out@[b]]
                0 <= a < out@.len() && 0 <= b < out@.len() && a != b implies out@[a]@ != out@[b]@ by {
                assert(all[a].0@ != all[b].0@);
            }
        }
        out
    }

    /// Rebuilds a registry from stored things, with empty queues. Of two
    /// things with one serial number the first is kept. Every active thing
    /// gets a secondary entry under its UUID.
    pub fn from_things(things: Vec<(String, ThingSyncState)>) -> (r: Self)
        ensures
            r.wf(),
            forall|k: Seq<char>|
                r@.primary.contains_key(k) <==> exists|i: int|
                    0 <= i < things@.len() && #[trigger] things@[i].0@ == k,
            forall|k: Seq<char>|
                #[trigger] r@.primary.contains_key(k) ==> exists|i: int|
                    0 <= i < things@.len() && things@[i].0@ == k && (forall|j: int|
                        0 <= j < i ==> things@[j].0@ != k) && r@.primary[k] == (HubThingView {
                        state: #[trigger] things@[i].1,
                        outbox: Seq::empty(),
                        inbox: Seq::empty(),
                    }),
            forall|k: Seq<char>|
                #[trigger] r@.primary.contains_key(k) ==> (r@.primary[k].state matches ThingSyncState::Active(
                    m,
                ) ==> r@.secondary.contains_key(m.thing.id)),
    {
        let ghost all = things@;
        let total = things.len();
        let mut rest = things;
        let mut db = ThingDb::new();
        let mut n: usize = 0;
        while rest.len() > 0
            invariant
                db.wf(),
                total == all.len(),
                n <= all.len(),
                rest@ == all.skip(n as int),
                forall|k: Seq<char>|
                    db@.primary.contains_key(k) <==> exists|i: int|
                        0 <= i < n && #[trigger] all[i].0@ == k,
                forall|k: Seq<char>|
                    #[trigger] db@.primary.contains_key(k) ==> exists|i: int|
                        0 <= i < n && all[i].0@ == k && (forall|j: int| 0 <= j < i ==> all[j].0@ != k)
                            && db@.primary[k] == (HubThingView {
                            state: #[trigger] all[i].1,
                            outbox: Seq::empty(),
                            inbox: Seq::empty(),
                        }),
                forall|k: Seq<char>|
                    #[trigger] db@.primary.contains_key(k) ==> (
                    db@.primary[k].state matches ThingSyncState::Active(m)
                        ==> db@.secondary.contains_key(m.thing.id)),
            decreases rest@.len(),
        {
            proof {
                assert(rest@.len() == all.len() - n);
            }
            let (serial, state) = rest.remove(0);
            proof {
                assert(all[n as int] == (serial, state));
                assert(rest@ =~= all.skip(n + 1));
            }
            let ghost v0 = db@;
            if db.find(&serial).is_none() {
                let id = match &state {
                    ThingSyncState::Active(m) => Some(m.thing.id),
                    _ => None,
                };
                let entry = (serial.clone(), HubThing::new(state));
                proof {
                    lemma_push(db.primary@, entry);
                }
                db.primary.push(entry);
                if let Some(u) = id {
                    db.secondary.insert(u, serial);
                }
                proof {
                    assert(db@.primary == v0.primary.insert(entry.0@, entry.1@));
                    match id {
                        Some(u) => {
                            assert(db@.secondary =~= v0.secondary.insert(u, entry.0@));
                        },
                        None => {
                            assert(db@.secondary =~= v0.secondary);
                        },
                    }
                    assert(index_consistent(db@));
                    assert forall|k: Seq<char>| db@.primary.contains_key(k) <==> exists|i: int|
                        0 <= i < n + 1 && #[trigger] all[i].0@ == k by {
                        if db@.primary.contains_key(k) && k != entry.0@ {
                            let i = choose|i: int| 0 <= i < n && #[trigger] all[i].0@ == k;
                            assert(0 <= i < n + 1 && all[i].0@ == k);
                        }
                        if exists|i: int| 0 <= i < n + 1 && #[trigger] all[i].0@ == k {
                            let i = choose|i: int| 0 <= i < n + 1 && #[trigger] all[i].0@ == k;
                            if i < n {
                                assert(v0.primary.contains_key(k));
                            }
                        }
                    }
                    assert forall|k: Seq<char>| #[trigger] db@.primary.contains_key(k) implies exists|i: int|
                        0 <= i < n + 1 && all[i].0@ == k && (forall|j: int| 0 <= j < i ==> all[j].0@ != k)
                            && db@.primary[k] == (HubThingView {
                            state: #[trigger] all[i].1,
                            outbox: Seq::empty(),
                            inbox: Seq::empty(),
                        }) by {
                        if k == entry.0@ {
                            assert(all[n as int].0@ == k);
                            assert forall|j: int| 0 <= j < n implies all[j].0@ != k by {
                                if all[j].0@ == k {
                                    assert(v0.primary.contains_key(k));
                                }
                            }
                        } else {
                            assert(v0.primary.contains_key(k));
                        }
                    }
                }
            } else {
                proof {
                    assert forall|k: Seq<char>| db@.primary.contains_key(k) <==> exists|i: int|
                        0 <= i < n + 1 && #[trigger] all[i].0@ == k by {
                        if exists|i: int| 0 <= i < n + 1 && #[trigger] all[i].0@ == k {
                            let i = choose|i: int| 0 <= i < n + 1 && #[trigger] all[i].0@ == k;
                            if i < n {
                                assert(v0.primary.contains_key(k));
                            }
                        }
                        if db@.primary.contains_key(k) {
                            let i = choose|i: int| 0 <= i < n && #[trigger] all[i].0@ == k;
                            assert(0 <= i < n + 1 && all[i].0@ == k);
                        }
                    }
                }
            }
            n = n + 1;
        }
        proof {
            assert(n == all.len());
        }
        db
    }
}

/// Every secondary entry of a well-formed registry leads to an active
/// thing whose cloud UUID is the entry's key.
pub proof fn lemma_dual_index_consistent(db: &ThingDb)
    requires
        db.wf(),
    ensures
        index_consistent(db@),
{
}

/// After unpairing `serial`, the thing is gone from the primary index and
/// no secondary entry leads to it.
pub proof fn lemma_unpair_complete(v: RegistryView, serial: Seq<char>)
    ensures
        !unpaired(v, serial).primary.contains_key(serial),
        forall|u: u128|
            #[trigger] unpaired(v, serial).secondary.contains_key(u) ==> unpaired(
                v,
                serial,
            ).secondary[u] != serial,
{
}

/// Unpairing twice is unpairing once; the second time finds nothing, so
/// the facade's unpair reports success both times.
pub proof fn lemma_unpair_idempotent(v: RegistryView, serial: Seq<char>)
    ensures
        unpaired(unpaired(v, serial), serial) == unpaired(v, serial),
        !unpaired(v, serial).primary.contains_key(serial),
{
    let once = unpaired(v, serial);
    assert(once.primary.remove(serial) =~= once.primary);
    assert(unindexed(once.secondary, serial) =~= once.secondary);
}

} // verus!
