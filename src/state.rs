use vstd::prelude::*;

use crate::error::HubError;
use crate::model::{hyphenated_of, uuid_text, Resource, ResourceMethod, Thing, ThingRequest};
use crate::message::{ascii_only, filter_ascii, PartialThingMessage};
use crate::runner::RunnerConfig;

verus! {

/// A thing whose metadata is complete. Its MQTT session may still be down.
#[derive(Debug, Clone)]
pub struct MetaThing {
    pub thing: Thing,
    pub resources: Vec<Resource>,
    pub ca_file_name: Option<String>,
    pub cert_file_name: Option<String>,
    pub key_file_name: Option<String>,
    /// Whether an MQTT session is attached to this thing.
    pub mqtt_connected: bool,
}

/// The three-step life of a thing: created locally, registered in the
/// cloud and waiting for metadata, then active.
#[derive(Debug, Clone)]
pub enum ThingSyncState {
    Created(ThingRequest),
    GatheringMetadata(Thing),
    Active(MetaThing),
}

/// Everything needed to bring up the MQTT session of an active thing: the
/// three certificate files to write (path and body), the client identity,
/// the broker, and the topics to subscribe to.
#[derive(Debug)]
pub struct MqttPlan {
    pub client_id: String,
    pub ca_file_name: String,
    pub cert_file_name: String,
    pub key_file_name: String,
    pub ca: String,
    pub cert: String,
    pub key: String,
    pub host: String,
    pub port: u16,
    /// Keep-alive interval, in seconds.
    pub keep_alive_secs: u16,
    /// Delay before reconnecting, in seconds.
    pub reconnect_secs: u16,
    pub subscriptions: Vec<String>,
}

/// Keep-alive interval of every MQTT session, in seconds.
pub const MQTT_KEEP_ALIVE_SECS: u16 = 5;

/// Reconnect delay of every MQTT session, in seconds.
pub const MQTT_RECONNECT_SECS: u16 = 10;

/// How an MQTT bring-up ended.
#[derive(Debug, Clone, Copy, PartialEq, Eq, Structural)]
pub enum MqttOutcome {
    /// A certificate file could not be written.
    FilesNotWritten,
    /// The files are on disk but the client did not start or subscribe.
    NotConnected,
    /// The session is up and subscribed.
    Connected,
}

/// What the caller is asked to do for one thing.
#[derive(Debug)]
pub enum Command {
    /// Nothing to do this tick.
    Idle,
    /// Ask the cloud whether a thing with this serial number exists.
    LookUpSerial(String),
    /// Create the thing in the cloud.
    Register(ThingRequest),
    /// Fetch the resources of this thing type.
    FetchResources(u128),
    /// Write the certificates and start the MQTT session.
    BringUpMqtt(MqttPlan),
    /// Publish the queued outbound messages, taken one by one.
    Publish,
}

/// What came back from a command.
#[derive(Debug)]
pub enum Outcome {
    /// The serial-number lookup failed.
    LookupFailed,
    /// The serial-number lookup answered; whether it found a thing.
    LookupDone(bool),
    /// The cloud created the thing, or the call failed.
    Registered(Option<Thing>),
    /// The resources of the thing type, or a failed call.
    Resources(Option<Vec<Resource>>),
    /// The end of an MQTT bring-up.
    Mqtt(MqttOutcome),
}

/// What is left to release when a thing is dropped: its MQTT session and
/// the certificate files that were written for it.
#[derive(Debug)]
pub struct Teardown {
    pub serial: String,
    pub close_session: bool,
    pub files: Vec<String>,
}

/// `{dir}/{uuid}{suffix}`.
pub open spec fn cert_path(dir: Seq<char>, id: u128, suffix: Seq<char>) -> Seq<char> {
    dir + "/"@ + hyphenated_of(id) + suffix
}

pub open spec fn ca_path(dir: Seq<char>, id: u128) -> Seq<char> {
    cert_path(dir, id, ".ca.crt"@)
}

pub open spec fn crt_path(dir: Seq<char>, id: u128) -> Seq<char> {
    cert_path(dir, id, ".crt"@)
}

pub open spec fn key_path(dir: Seq<char>, id: u128) -> Seq<char> {
    cert_path(dir, id, ".key"@)
}

/// The URIs of the subscribe resources, in order.
pub open spec fn sub_topics(rs: Seq<Resource>) -> Seq<Seq<char>>
    decreases rs.len(),
{
    if rs.len() == 0 {
        Seq::empty()
    } else {
        let init = sub_topics(rs.drop_last());
        if rs.last().method == ResourceMethod::Sub {
            init.push(rs.last().uri@)
        } else {
            init
        }
    }
}

pub open spec fn strings_view(v: Seq<String>) -> Seq<Seq<char>> {
    v.map_values(|s: String| s@)
}

/// `plan` is the bring-up plan of `m` under `config`.
pub open spec fn plan_of(plan: MqttPlan, m: MetaThing, config: RunnerConfig) -> bool {
    let dir = config.certificate_storage@;
    let id = m.thing.id;
    &&& m.thing.certs matches Some(c)
    &&& plan.client_id@ == hyphenated_of(id)
    &&& plan.ca_file_name@ == ca_path(dir, id)
    &&& plan.cert_file_name@ == crt_path(dir, id)
    &&& plan.key_file_name@ == key_path(dir, id)
    &&& plan.ca == c.ca
    &&& plan.cert == c.cert
    &&& plan.key == c.key
    &&& plan.host == config.mqtt_host
    &&& plan.port == config.mqtt_port
    &&& plan.keep_alive_secs == MQTT_KEEP_ALIVE_SECS
    &&& plan.reconnect_secs == MQTT_RECONNECT_SECS
    &&& strings_view(plan.subscriptions@) == sub_topics(m.resources@)
}

/// The certificate paths of `m` are recorded, as composed under `dir`.
pub open spec fn paths_recorded(m: MetaThing, dir: Seq<char>) -> bool {
    &&& m.ca_file_name matches Some(p) && p@ == ca_path(dir, m.thing.id)
    &&& m.cert_file_name matches Some(p) && p@ == crt_path(dir, m.thing.id)
    &&& m.key_file_name matches Some(p) && p@ == key_path(dir, m.thing.id)
}

/// The recorded certificate paths of `m`, in the order ca, cert, key.
pub open spec fn recorded_files(m: MetaThing) -> Seq<Seq<char>> {
    let a = match m.ca_file_name { Some(p) => seq![p@], None => Seq::empty() };
    let b = match m.cert_file_name { Some(p) => seq![p@], None => Seq::empty() };
    let c = match m.key_file_name { Some(p) => seq![p@], None => Seq::empty() };
    a + b + c
}

fn compose_path(dir: &String, id_text: &String, suffix: &str) -> (r: String)
    ensures
        r@ == dir@ + "/"@ + id_text@ + suffix@,
{
    let mut p = dir.clone();
    p.append("/");
    p.append(id_text.as_str());
    p.append(suffix);
    p
}

impl MetaThing {
    /// The bring-up plan of this thing: certificate files under the
    /// configured directory, named after the thing's UUID, the UUID as
    /// client id, and a subscription for each subscribe resource.
    pub fn connect_mqtt(&self, config: &RunnerConfig) -> (r: Result<MqttPlan, HubError>)
        ensures
            match self.thing.certs {
                None => r == Err::<MqttPlan, HubError>(HubError::MissingCertificates),
                Some(_) => r matches Ok(plan) && plan_of(plan, *self, *config),
            },
    {
        let certs = match &self.thing.certs {
            Some(c) => c,
            None => return Err(HubError::MissingCertificates),
        };
        let id_text = uuid_text(self.thing.id);
        let dir = &config.certificate_storage;
        let ca_file_name = compose_path(dir, &id_text, ".ca.crt");
        let cert_file_name = compose_path(dir, &id_text, ".crt");
        let key_file_name = compose_path(dir, &id_text, ".key");
        let mut subscriptions: Vec<String> = Vec::new();
        let mut i: usize = 0;
        while i < self.resources.len()
            invariant
                i <= self.resources@.len(),
                strings_view(subscriptions@) == sub_topics(self.resources@.take(i as int)),
            decreases self.resources@.len() - i,
        {
            let r = &self.resources[i];
            proof {
                assert(self.resources@.take(i + 1).drop_last() == self.resources@.take(i as int));
            }
            if r.method == ResourceMethod::Sub {
                let ghost before = subscriptions@;
                subscriptions.push(r.uri.clone());
                proof {
                    assert(strings_view(subscriptions@) == strings_view(before).push(r.uri@));
                }
            }
            i = i + 1;
        }
        proof {
            assert(self.resources@.take(self.resources@.len() as int) == self.resources@);
        }
        Ok(MqttPlan {
            client_id: id_text,
            ca_file_name,
            cert_file_name,
            key_file_name,
            ca: certs.ca.clone(),
            cert: certs.cert.clone(),
            key: certs.key.clone(),
            host: config.mqtt_host.clone(),
            port: config.mqtt_port,
            keep_alive_secs: MQTT_KEEP_ALIVE_SECS,
            reconnect_secs: MQTT_RECONNECT_SECS,
            subscriptions,
        })
    }

    /// Records how a bring-up ended: once the files are on disk their paths
    /// are kept, and the session is marked attached only when it came up.
    pub fn record_mqtt(&mut self, outcome: MqttOutcome, config: &RunnerConfig)
        ensures
            final(self).thing == old(self).thing,
            final(self).resources == old(self).resources,
            outcome == MqttOutcome::FilesNotWritten ==> *final(self) == *old(self),
            outcome != MqttOutcome::FilesNotWritten ==> {
                &&& paths_recorded(*final(self), config.certificate_storage@)
                &&& final(self).mqtt_connected == (outcome == MqttOutcome::Connected)
            },
    {
        if outcome == MqttOutcome::FilesNotWritten {
            return;
        }
        let id_text = uuid_text(self.thing.id);
        let dir = &config.certificate_storage;
        self.ca_file_name = Some(compose_path(dir, &id_text, ".ca.crt"));
        self.cert_file_name = Some(compose_path(dir, &id_text, ".crt"));
        self.key_file_name = Some(compose_path(dir, &id_text, ".key"));
        self.mqtt_connected = outcome == MqttOutcome::Connected;
    }

    /// The outbound form of a message: its payload keeps only ASCII.
    pub fn process_messages(msg: PartialThingMessage) -> (r: PartialThingMessage)
        ensures
            r.topic == msg.topic,
            r.msg@ == ascii_only(msg.msg@),
    {
        let filtered = filter_ascii(msg.msg.as_str());
        PartialThingMessage { topic: msg.topic, msg: filtered }
    }
}

impl ThingSyncState {
    /// The state after the cloud answered a create request: metadata is
    /// gathered next; a failed call leaves the thing where it was.
    pub fn create_new_thing(created: Option<Thing>) -> (r: Option<Self>)
        ensures
            match created {
                Some(t) => r == Some(ThingSyncState::GatheringMetadata(t)),
                None => r is None,
            },
    {
        match created {
            Some(t) => Some(ThingSyncState::GatheringMetadata(t)),
            None => None,
        }
    }

    /// The state after the resources of the thing type came back: the
    /// thing is active, with no certificate file written and no session.
    pub fn gather_thing_metadata(thing: &Thing, resources: Option<Vec<Resource>>) -> (r: Option<Self>)
        ensures
            match resources {
                Some(rs) => r == Some(ThingSyncState::Active(fresh_meta(*thing, rs))),
                None => r is None,
            },
    {
        match resources {
            Some(rs) => Some(
                ThingSyncState::Active(
                    MetaThing {
                        thing: thing.clone(),
                        resources: rs,
                        ca_file_name: None,
                        cert_file_name: None,
                        key_file_name: None,
                        mqtt_connected: false,
                    },
                ),
            ),
            None => None,
        }
    }

    /// What dropping this state would release, without dropping it.
    pub fn consume_ref(&self, serial: &String) -> (r: Teardown)
        ensures
            teardown_of(*self, *serial, r),
    {
        match self {
            ThingSyncState::Active(m) => {
                let mut files: Vec<String> = Vec::new();
                if let Some(p) = &m.ca_file_name {
                    files.push(p.clone());
                }
                if let Some(p) = &m.cert_file_name {
                    files.push(p.clone());
                }
                if let Some(p) = &m.key_file_name {
                    files.push(p.clone());
                }
                proof {
                    assert(strings_view(files@) =~= recorded_files(*m));
                }
                Teardown { serial: serial.clone(), close_session: m.mqtt_connected, files }
            },
            _ => Teardown { serial: serial.clone(), close_session: false, files: Vec::new() },
        }
    }

    /// Drops the state and says what to release: an active thing's session,
    /// if attached, and the certificate files whose paths were recorded.
    pub fn consume(self, serial: String) -> (r: Teardown)
        ensures
            teardown_of(self, serial, r),
    {
        match self {
            ThingSyncState::Active(m) => {
                let mut files: Vec<String> = Vec::new();
                let ghost m0 = m;
                let MetaThing { ca_file_name, cert_file_name, key_file_name, mqtt_connected, .. } = m;
                if let Some(p) = ca_file_name {
                    files.push(p);
                }
                if let Some(p) = cert_file_name {
                    files.push(p);
                }
                if let Some(p) = key_file_name {
                    files.push(p);
                }
                proof {
                    assert(strings_view(files@) =~= recorded_files(m0));
                }
                Teardown { serial, close_session: mqtt_connected, files }
            },
            _ => Teardown { serial, close_session: false, files: Vec::new() },
        }
    }
}

/// `r` releases what a thing in `state`, keyed by `serial`, holds.
pub open spec fn teardown_of(state: ThingSyncState, serial: String, r: Teardown) -> bool {
    &&& r.serial == serial
    &&& match state {
        ThingSyncState::Active(m) => {
            &&& r.close_session == m.mqtt_connected
            &&& strings_view(r.files@) == recorded_files(m)
        },
        _ => !r.close_session && r.files@.len() == 0,
    }
}

/// A newly active thing: nothing written to disk yet, no session.
pub open spec fn fresh_meta(thing: Thing, resources: Vec<Resource>) -> MetaThing {
    MetaThing {
        thing,
        resources,
        ca_file_name: None,
        cert_file_name: None,
        key_file_name: None,
        mqtt_connected: false,
    }
}

/// `r` is what a thing in `state` asks for at the start of a tick.
pub open spec fn command_for(
    state: ThingSyncState,
    token_present: bool,
    config: RunnerConfig,
    r: Result<Command, HubError>,
) -> bool {
    match state {
        ThingSyncState::Created(req) => if token_present {
            r == Ok::<Command, HubError>(Command::LookUpSerial(req.serial_number))
        } else {
            r == Ok::<Command, HubError>(Command::Idle)
        },
        ThingSyncState::GatheringMetadata(t) => if token_present {
            r == Ok::<Command, HubError>(Command::FetchResources(t.thing_type))
        } else {
            r == Ok::<Command, HubError>(Command::Idle)
        },
        ThingSyncState::Active(m) => if m.mqtt_connected {
            r == Ok::<Command, HubError>(Command::Publish)
        } else if m.thing.certs is None {
            r == Err::<Command, HubError>(HubError::MissingCertificates)
        } else {
            r matches Ok(Command::BringUpMqtt(plan)) && plan_of(plan, m, config)
        },
    }
}

/// A thing in state `old` that got `outcome` moves to `new`, asks for `cmd`
/// next, and reports its cloud UUID when it has just become active.
pub open spec fn transition(
    old: ThingSyncState,
    outcome: Outcome,
    config: RunnerConfig,
    new: ThingSyncState,
    cmd: Command,
    activated: Option<u128>,
) -> bool {
    let unchanged = new == old && cmd == Command::Idle && activated is None;
    match old {
        ThingSyncState::Created(req) => match outcome {
            Outcome::LookupDone(_) => new == old && cmd == Command::Register(req) && activated is None,
            Outcome::Registered(Some(t)) => {
                &&& new == ThingSyncState::GatheringMetadata(t)
                &&& cmd == Command::Idle
                &&& activated is None
            },
            _ => unchanged,
        },
        ThingSyncState::GatheringMetadata(t) => match outcome {
            Outcome::Resources(Some(rs)) => {
                &&& new == ThingSyncState::Active(fresh_meta(t, rs))
                &&& cmd == Command::Idle
                &&& activated == Some(t.id)
            },
            _ => unchanged,
        },
        ThingSyncState::Active(m) => match outcome {
            Outcome::Mqtt(o) => {
                &&& cmd == Command::Idle
                &&& activated is None
                &&& new matches ThingSyncState::Active(m2)
                &&& m2.thing == m.thing
                &&& m2.resources == m.resources
                &&& o == MqttOutcome::FilesNotWritten ==> m2 == m
                &&& o != MqttOutcome::FilesNotWritten ==> {
                    &&& paths_recorded(m2, config.certificate_storage@)
                    &&& m2.mqtt_connected == (o == MqttOutcome::Connected)
                }
            },
            _ => unchanged,
        },
    }
}

/// Without a token, a thing that is created or gathering metadata asks for
/// nothing, so ticks leave it as it is.
pub proof fn lemma_no_token_quiescence(
    state: ThingSyncState,
    config: RunnerConfig,
    r: Result<Command, HubError>,
)
    requires
        state is Created || state is GatheringMetadata,
        command_for(state, false, config, r),
    ensures
        r == Ok::<Command, HubError>(Command::Idle),
{
}

/// An unpaired thing whose session came up releases exactly its three
/// certificate files, named after its UUID under the certificate directory.
pub proof fn lemma_teardown_files(state: ThingSyncState, serial: String, t: Teardown, dir: Seq<char>)
    requires
        teardown_of(state, serial, t),
        state matches ThingSyncState::Active(m) && paths_recorded(m, dir),
    ensures
        ({
            let id = state->Active_0.thing.id;
            strings_view(t.files@) == seq![ca_path(dir, id), crt_path(dir, id), key_path(dir, id)]
        }),
{
    let m = state->Active_0;
    assert(recorded_files(m) =~= seq![ca_path(dir, m.thing.id), crt_path(dir, m.thing.id), key_path(dir, m.thing.id)]);
}

} // verus!
