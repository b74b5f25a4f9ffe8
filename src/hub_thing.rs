use vstd::prelude::*;

use crate::error::HubError;
use crate::message::{ascii_only, PartialThingMessage};
use crate::runner::{CarePackage, RunnerConfig};
use crate::state::{command_for, teardown_of, transition, Command, MetaThing, Outcome, Teardown, ThingSyncState};

verus! {

/// The two message queues of a thing, oldest message first.
#[derive(Debug, Clone)]
pub struct HubModem {
    /// Messages from local callers, waiting to be published.
    pub hub_to_cloud: Vec<PartialThingMessage>,
    /// Messages from the broker, waiting to be received locally.
    pub cloud_to_hub: Vec<PartialThingMessage>,
}

impl Default for HubModem {
    fn default() -> (r: Self)
        ensures
            r.hub_to_cloud@ == Seq::<PartialThingMessage>::empty(),
            r.cloud_to_hub@ == Seq::<PartialThingMessage>::empty(),
    {
        HubModem { hub_to_cloud: Vec::new(), cloud_to_hub: Vec::new() }
    }
}

/// A registered thing: its state and its queues.
#[derive(Debug, Clone)]
pub struct HubThing {
    pub thing: ThingSyncState,
    pub modem: HubModem,
}

/// A thing as seen from outside: its state and the contents of its queues.
pub struct HubThingView {
    pub state: ThingSyncState,
    pub outbox: Seq<PartialThingMessage>,
    pub inbox: Seq<PartialThingMessage>,
}

impl View for HubThing {
    type V = HubThingView;

    open spec fn view(&self) -> HubThingView {
        HubThingView {
            state: self.thing,
            outbox: self.modem.hub_to_cloud@,
            inbox: self.modem.cloud_to_hub@,
        }
    }
}

/// A thing whose MQTT session is attached.
pub open spec fn is_connected(state: ThingSyncState) -> bool {
    state matches ThingSyncState::Active(m) && m.mqtt_connected
}

/// `v` with `msgs` queued for the cloud after what is already queued.
pub open spec fn queued(v: HubThingView, msgs: Seq<PartialThingMessage>) -> HubThingView {
    HubThingView { outbox: v.outbox + msgs, ..v }
}

/// One publishing step: a connected thing with queued messages hands out
/// the oldest, its payload cut to ASCII (`sent`); otherwise nothing
/// happens.
pub open spec fn published_step(
    before: HubThingView,
    after: HubThingView,
    sent: Option<PartialThingMessage>,
) -> bool {
    if is_connected(before.state) && before.outbox.len() > 0 {
        &&& sent matches Some(m)
        &&& m.topic == before.outbox[0].topic
        &&& m.msg@ == ascii_only(before.outbox[0].msg@)
        &&& after == HubThingView { outbox: before.outbox.drop_first(), ..before }
    } else {
        sent is None && after == before
    }
}

impl HubThing {
    /// A thing in `thing` with empty queues.
    pub fn new(thing: ThingSyncState) -> (r: Self)
        ensures
            r@ == (HubThingView {
                state: thing,
                outbox: Seq::empty(),
                inbox: Seq::empty(),
            }),
    {
        HubThing { thing, modem: HubModem::default() }
    }

    /// What this thing asks for at the start of a tick. Nothing changes:
    /// without a token a thing that is not yet active stays idle.
    pub fn next_command(&self, package: &CarePackage) -> (r: Result<Command, HubError>)
        ensures
            command_for(self.thing, package.token_opt is Some, package.config, r),
    {
        let token_present = package.token_opt.is_some();
        match &self.thing {
            ThingSyncState::Created(req) => {
                if token_present {
                    Ok(Command::LookUpSerial(req.serial_number.clone()))
                } else {
                    Ok(Command::Idle)
                }
            },
            ThingSyncState::GatheringMetadata(t) => {
                if token_present {
                    Ok(Command::FetchResources(t.thing_type))
                } else {
                    Ok(Command::Idle)
                }
            },
            ThingSyncState::Active(m) => {
                if m.mqtt_connected {
                    Ok(Command::Publish)
                } else {
                    match m.connect_mqtt(&package.config) {
                        Ok(plan) => Ok(Command::BringUpMqtt(plan)),
                        Err(e) => Err(e),
                    }
                }
            },
        }
    }

    /// Applies what came back from a command. Returns the next command and,
    /// when the thing has just become active, its cloud UUID.
    pub fn manage(&mut self, outcome: Outcome, config: &RunnerConfig) -> (r: (Command, Option<u128>))
        ensures
            transition(old(self).thing, outcome, *config, final(self).thing, r.0, r.1),
            final(self).modem == old(self).modem,
    {
        match (&self.thing, outcome) {
            (ThingSyncState::Created(req), Outcome::LookupDone(_)) => {
                (Command::Register(req.clone()), None)
            },
            (ThingSyncState::Created(_), Outcome::Registered(created)) => {
                match ThingSyncState::create_new_thing(created) {
                    Some(next) => {
                        self.thing = next;
                        (Command::Idle, None)
                    },
                    None => (Command::Idle, None),
                }
            },
            (ThingSyncState::GatheringMetadata(t), Outcome::Resources(resources)) => {
                let id = t.id;
                match ThingSyncState::gather_thing_metadata(t, resources) {
                    Some(next) => {
                        self.thing = next;
                        (Command::Idle, Some(id))
                    },
                    None => (Command::Idle, None),
                }
            },
            (ThingSyncState::Active(_), Outcome::Mqtt(o)) => {
                match &mut self.thing {
                    ThingSyncState::Active(m) => m.record_mqtt(o, config),
                    _ => {},
                }
                (Command::Idle, None)
            },
            _ => (Command::Idle, None),
        }
    }

    /// Takes the oldest outbound message, with its payload cut to ASCII,
    /// when the session is attached. Otherwise nothing is taken.
    pub fn take_outbound(&mut self) -> (r: Option<PartialThingMessage>)
        ensures
            published_step(old(self)@, final(self)@, r),
            final(self).thing == old(self).thing,
    {
        let connected = match &self.thing {
            ThingSyncState::Active(m) => m.mqtt_connected,
            _ => false,
        };
        if connected && self.modem.hub_to_cloud.len() > 0 {
            let msg = self.modem.hub_to_cloud.remove(0);
            Some(MetaThing::process_messages(msg))
        } else {
            None
        }
    }

    /// Queues messages for the cloud, after those already queued.
    pub fn push_outbound(&mut self, msgs: &[PartialThingMessage])
        ensures
            final(self)@ == queued(old(self)@, msgs@),
    {
        let mut i: usize = 0;
        while i < msgs.len()
            invariant
                i <= msgs@.len(),
                self.thing == old(self).thing,
                self.modem.cloud_to_hub == old(self).modem.cloud_to_hub,
                self@.outbox == old(self)@.outbox + msgs@.take(i as int),
            decreases msgs@.len() - i,
        {
            self.modem.hub_to_cloud.push(msgs[i].clone());
            proof {
                assert(msgs@.take(i + 1) == msgs@.take(i as int).push(msgs@[i as int]));
            }
            i = i + 1;
        }
        proof {
            assert(msgs@.take(msgs@.len() as int) == msgs@);
        }
    }

    /// Queues a message that came from the broker.
    pub fn push_inbound(&mut self, msg: PartialThingMessage)
        ensures
            final(self)@ == (HubThingView { inbox: old(self)@.inbox.push(msg), ..old(self)@ }),
    {
        self.modem.cloud_to_hub.push(msg);
    }

    /// Takes every message that came from the broker, oldest first.
    pub fn drain_inbound(&mut self) -> (r: Vec<PartialThingMessage>)
        ensures
            r@ == old(self)@.inbox,
            final(self)@ == (HubThingView { inbox: Seq::empty(), ..old(self)@ }),
    {
        let mut out: Vec<PartialThingMessage> = Vec::new();
        core::mem::swap(&mut out, &mut self.modem.cloud_to_hub);
        out
    }

    /// Drops the thing and says what to release.
    pub fn extract(self, serial: String) -> (r: Teardown)
        ensures
            teardown_of(self.thing, serial, r),
    {
        self.thing.consume(serial)
    }
}

proof fn lemma_publish_steps(
    v: HubThingView,
    msgs: Seq<PartialThingMessage>,
    views: Seq<HubThingView>,
    sent: Seq<PartialThingMessage>,
    k: int,
)
    requires
        is_connected(v.state),
        v.outbox.len() == 0,
        views.len() == msgs.len() + 1,
        sent.len() == msgs.len(),
        views[0] == queued(v, msgs),
        forall|i: int|
            0 <= i < msgs.len() ==> published_step(
                #[trigger] views[i],
                views[i + 1],
                Some(sent[i]),
            ),
        0 <= k <= msgs.len(),
    ensures
        views[k] == (HubThingView { outbox: msgs.skip(k), ..v }),
        forall|i: int|
            0 <= i < k ==> (#[trigger] sent[i]).topic == msgs[i].topic && sent[i].msg@ == ascii_only(
                msgs[i].msg@,
            ),
    decreases k,
{
    if k == 0 {
        assert(v.outbox + msgs =~= msgs.skip(0));
    } else {
        lemma_publish_steps(v, msgs, views, sent, k - 1);
        assert(published_step(views[k - 1], views[k], Some(sent[k - 1])));
        assert(msgs.skip(k - 1).drop_first() =~= msgs.skip(k));
    }
}

/// Messages sent for a connected thing with empty queues leave, one
/// publishing step each, in order, on their own topics, with payloads cut
/// to ASCII. Afterwards nothing is queued and the inbox is still empty, so
/// once a broker that echoes every publish has delivered them back, a
/// receive returns exactly what was published.
pub proof fn lemma_round_trip(
    v: HubThingView,
    msgs: Seq<PartialThingMessage>,
    views: Seq<HubThingView>,
    sent: Seq<PartialThingMessage>,
)
    requires
        is_connected(v.state),
        v.outbox.len() == 0,
        v.inbox.len() == 0,
        views.len() == msgs.len() + 1,
        sent.len() == msgs.len(),
        views[0] == queued(v, msgs),
        forall|i: int|
            0 <= i < msgs.len() ==> published_step(
                #[trigger] views[i],
                views[i + 1],
                Some(sent[i]),
            ),
    ensures
        views.last().outbox.len() == 0,
        views.last().inbox.len() == 0,
        views.last().state == v.state,
        forall|i: int|
            0 <= i < msgs.len() ==> (#[trigger] sent[i]).topic == msgs[i].topic && sent[i].msg@
                == ascii_only(msgs[i].msg@),
{
    lemma_publish_steps(v, msgs, views, sent, msgs.len() as int);
}

} // verus!
