use hub_sdk::auth_manager::{check_and_refresh, REFRESH_PERIOD_MS, RETRY_PERIOD_MS};
use hub_sdk::message::filter_ascii;
use hub_sdk::rest_ipc::{route, Endpoint, Method};
use hub_sdk::store::settle;
use hub_sdk::{
    CarePackage, Command, HubError, HubSDK, HubThing, MetaThing, MqttOutcome, Outcome,
    PartialThingMessage, Resource, ResourceMethod, RestConfig, RocketConfig, RunnerConfig,
    ServiceCredentials, Thing, ThingCertificates, ThingDb, ThingRequest, ThingSyncState,
};

const TYPE_ID: u128 = 0x2cb7f29a_527b_11e7_b114_b2f933d5fe66;

fn config() -> RunnerConfig {
    RunnerConfig {
        certificate_storage: "/var/certs".to_string(),
        mqtt_host: "broker".to_string(),
        mqtt_port: 1883,
    }
}

fn request(serial: &str) -> ThingRequest {
    ThingRequest { name: "n".to_string(), serial_number: serial.to_string(), thing_type: TYPE_ID }
}

fn thing(id: u128, serial: &str, certs: bool) -> Thing {
    Thing {
        id,
        name: "n".to_string(),
        serial_number: serial.to_string(),
        thing_type: TYPE_ID,
        certs: if certs {
            Some(ThingCertificates {
                ca: "a".to_string(),
                cert: "b".to_string(),
                key: "c".to_string(),
            })
        } else {
            None
        },
    }
}

fn active(id: u128, serial: &str, certs: bool) -> ThingSyncState {
    ThingSyncState::Active(MetaThing {
        thing: thing(id, serial, certs),
        resources: vec![],
        ca_file_name: None,
        cert_file_name: None,
        key_file_name: None,
        mqtt_connected: false,
    })
}

fn msg(topic: &str, body: &str) -> PartialThingMessage {
    PartialThingMessage { topic: topic.to_string(), msg: body.to_string() }
}

#[test]
fn ascii_filter_drops_non_ascii() {
    assert_eq!(filter_ascii("grüße, 世界!"), "gre, !");
    assert_eq!(filter_ascii(""), "");
    assert_eq!(filter_ascii("plain"), "plain");
}

#[test]
fn publish_cuts_payload_to_ascii() {
    let out = MetaThing::process_messages(msg("t", "héllo"));
    assert_eq!(out.topic, "t");
    assert_eq!(out.msg, "hllo");
}

#[test]
fn routes_of_the_rest_interface() {
    let r = route(Method::Get, "/api/v1/token/check").unwrap();
    assert_eq!(r.endpoint, Endpoint::TokenCheck);
    assert_eq!(r.serial, "");
    assert_eq!(route(Method::Post, "/api/v1/login").unwrap().endpoint, Endpoint::Login);
    assert_eq!(route(Method::Post, "/api/v1/logout").unwrap().endpoint, Endpoint::Logout);
    assert_eq!(route(Method::Post, "/api/v1/things").unwrap().endpoint, Endpoint::PostThing);
    let r = route(Method::Delete, "/api/v1/things/unpair/ABC").unwrap();
    assert_eq!(r.endpoint, Endpoint::UnpairThing);
    assert_eq!(r.serial, "ABC");
    let r = route(Method::Delete, "/api/v1/things/ABC").unwrap();
    assert_eq!(r.endpoint, Endpoint::DeleteThing);
    assert_eq!(r.serial, "ABC");
    let r = route(Method::Post, "/api/v1/messages/X1").unwrap();
    assert_eq!(r.endpoint, Endpoint::PostMessages);
    assert_eq!(r.serial, "X1");
    let r = route(Method::Get, "/api/v1/messages/X1").unwrap();
    assert_eq!(r.endpoint, Endpoint::GetMessages);
    assert_eq!(r.serial, "X1");
}

#[test]
fn routes_that_do_not_match() {
    assert!(route(Method::Get, "/token/check").is_none());
    assert!(route(Method::Get, "/api/v1/login").is_none());
    assert!(route(Method::Post, "/api/v1/messages/").is_none());
    assert!(route(Method::Delete, "/api/v1/things/a/b").is_none());
    assert!(route(Method::Delete, "/api/v1/things/unpair/").is_none());
    assert!(route(Method::Get, "/api/v1/token/check/").is_none());
}

#[test]
fn refresh_decisions() {
    let cur = Some("old".to_string());
    let d = check_and_refresh(&cur, Some("new".to_string()));
    assert_eq!(d.store, Some("new".to_string()));
    assert_eq!(d.sleep_ms, 86_400_000);
    let d = check_and_refresh(&cur, Some("old".to_string()));
    assert_eq!(d.store, None);
    assert_eq!(d.sleep_ms, REFRESH_PERIOD_MS);
    let d = check_and_refresh(&cur, None);
    assert_eq!(d.store, None);
    assert_eq!(d.sleep_ms, 300_000);
    let d = check_and_refresh(&None, None);
    assert_eq!(d.store, None);
    assert_eq!(d.sleep_ms, RETRY_PERIOD_MS);
}

#[test]
fn default_configs() {
    let r = RestConfig::default();
    assert_eq!((r.address.as_str(), r.port, r.workers), ("127.0.0.1", 8000, 8));
    let r = RocketConfig::default();
    assert_eq!((r.address.as_str(), r.port, r.workers), ("127.0.0.1", 8000, 8));
    let c = ServiceCredentials::default();
    assert_eq!(c.username, "");
    assert!(c.token.is_none());
}

#[test]
fn login_refused_changes_nothing() {
    let mut sdk = HubSDK::new(ServiceCredentials::default(), ThingDb::new());
    assert_eq!(sdk.login("u@e", None), Err(HubError::LoginFailed));
    assert_eq!(sdk.credentials.username, "");
    assert_eq!(sdk.check_token(true), (String::new(), false));
}

#[test]
fn check_token_rejected_by_service() {
    let mut sdk = HubSDK::new(ServiceCredentials::default(), ThingDb::new());
    sdk.login("me@x", Some("t".to_string())).unwrap();
    assert_eq!(sdk.check_token(false), ("me@x".to_string(), false));
}

#[test]
fn unpair_twice_succeeds() {
    let mut sdk = HubSDK::new(ServiceCredentials::default(), ThingDb::new());
    sdk.create_thing(request("S1")).unwrap();
    let first = sdk.unpair_thing_by_serial("S1").unwrap();
    assert_eq!(first.serial, "S1");
    assert!(!first.close_session);
    assert!(first.files.is_empty());
    assert!(sdk.unpair_thing_by_serial("S1").is_none());
    assert!(!sdk.things.contains_serial("S1"));
}

#[test]
fn registry_unpair_unknown_is_error() {
    let mut db = ThingDb::new();
    assert_eq!(db.unpair("nope").err(), Some(HubError::UnknownSerial));
}

#[test]
fn delete_is_gated() {
    let mut sdk = HubSDK::new(ServiceCredentials::default(), ThingDb::new());
    sdk.create_thing(request("S1")).unwrap();
    assert_eq!(sdk.delete_thing_by_serial("S1"), Err(HubError::StillPaired));
    assert_eq!(sdk.delete_thing_by_serial("S2"), Err(HubError::NotLoggedIn));
    sdk.login("u", Some("tok".to_string())).unwrap();
    assert_eq!(sdk.delete_thing_by_serial("S1"), Err(HubError::StillPaired));
    assert_eq!(sdk.delete_thing_by_serial("S2"), Ok("tok".to_string()));
}

#[test]
fn no_token_leaves_things_idle() {
    let mut db = ThingDb::new();
    db.add_thing(request("C")).unwrap();
    let pkg = CarePackage { token_opt: None, config: config() };
    for _ in 0..3 {
        assert!(matches!(db.next_command("C", &pkg), Ok(Command::Idle)));
    }
    assert!(matches!(db.get("C").unwrap().thing, ThingSyncState::Created(_)));
    db.manage("C", Outcome::Registered(Some(thing(5, "C", true))), &config()).unwrap();
    for _ in 0..3 {
        assert!(matches!(db.next_command("C", &pkg), Ok(Command::Idle)));
    }
    assert!(matches!(db.get("C").unwrap().thing, ThingSyncState::GatheringMetadata(_)));
}

#[test]
fn failed_remote_calls_leave_state() {
    let mut db = ThingDb::new();
    db.add_thing(request("C")).unwrap();
    let cfg = config();
    let (cmd, _) = db.manage("C", Outcome::LookupFailed, &cfg).unwrap();
    assert!(matches!(cmd, Command::Idle));
    let (cmd, _) = db.manage("C", Outcome::LookupDone(true), &cfg).unwrap();
    assert!(matches!(cmd, Command::Register(_)));
    db.manage("C", Outcome::Registered(None), &cfg).unwrap();
    assert!(matches!(db.get("C").unwrap().thing, ThingSyncState::Created(_)));
    db.manage("C", Outcome::Registered(Some(thing(9, "C", true))), &cfg).unwrap();
    let (_, act) = db.manage("C", Outcome::Resources(None), &cfg).unwrap();
    assert!(act.is_none());
    assert!(matches!(db.get("C").unwrap().thing, ThingSyncState::GatheringMetadata(_)));
}

#[test]
fn missing_certificates_is_an_error() {
    let db = ThingDb::from_things(vec![("M".to_string(), active(7, "M", false))]);
    let pkg = CarePackage { token_opt: None, config: config() };
    assert_eq!(db.next_command("M", &pkg).err(), Some(HubError::MissingCertificates));
    assert_eq!(db.next_command("zz", &pkg).err(), Some(HubError::UnknownSerial));
}

#[test]
fn bring_up_outcomes() {
    let cfg = config();
    let mut db = ThingDb::from_things(vec![("A".to_string(), active(10, "A", true))]);
    db.manage("A", Outcome::Mqtt(MqttOutcome::FilesNotWritten), &cfg).unwrap();
    match &db.get("A").unwrap().thing {
        ThingSyncState::Active(m) => assert!(m.ca_file_name.is_none() && !m.mqtt_connected),
        _ => panic!(),
    }
    db.manage("A", Outcome::Mqtt(MqttOutcome::NotConnected), &cfg).unwrap();
    match &db.get("A").unwrap().thing {
        ThingSyncState::Active(m) => {
            assert_eq!(
                m.key_file_name.as_deref(),
                Some("/var/certs/00000000-0000-0000-0000-00000000000a.key")
            );
            assert!(!m.mqtt_connected);
        }
        _ => panic!(),
    }
    let t = db.unpair("A").unwrap();
    assert!(!t.close_session);
    assert_eq!(t.files.len(), 3);
}

#[test]
fn plan_subscribes_only_to_sub_resources() {
    let m = MetaThing {
        thing: thing(1, "P", true),
        resources: vec![
            Resource { uri: "a".to_string(), method: ResourceMethod::Sub },
            Resource { uri: "b".to_string(), method: ResourceMethod::Pub },
            Resource { uri: "c".to_string(), method: ResourceMethod::Sub },
        ],
        ca_file_name: None,
        cert_file_name: None,
        key_file_name: None,
        mqtt_connected: false,
    };
    let plan = m.connect_mqtt(&config()).unwrap();
    assert_eq!(plan.subscriptions, vec!["a".to_string(), "c".to_string()]);
    assert_eq!(plan.client_id, "00000000-0000-0000-0000-000000000001");
    assert_eq!(plan.cert_file_name, "/var/certs/00000000-0000-0000-0000-000000000001.crt");
    assert_eq!(plan.host, "broker");
    assert_eq!(plan.port, 1883);
    assert_eq!((plan.keep_alive_secs, plan.reconnect_secs), (5, 10));
    assert_eq!((plan.ca.as_str(), plan.cert.as_str(), plan.key.as_str()), ("a", "b", "c"));
}

#[test]
fn unknown_serial_errors() {
    let mut db = ThingDb::new();
    assert_eq!(db.hub_tx("x", &[msg("t", "m")]), Err(HubError::UnknownSerial));
    assert_eq!(db.hub_rx("x").err(), Some(HubError::UnknownSerial));
    assert_eq!(db.deliver("x", msg("t", "m")), Err(HubError::UnknownSerial));
    assert!(db.take_outbound("x").is_none());
    assert!(db.manage("x", Outcome::LookupFailed, &config()).is_err());
}

#[test]
fn outbound_waits_for_session() {
    let mut db = ThingDb::new();
    db.add_thing(request("Q")).unwrap();
    db.hub_tx("Q", &[msg("t", "1"), msg("t", "2")]).unwrap();
    assert!(db.take_outbound("Q").is_none());
}

#[test]
fn round_trip_through_echo() {
    let cfg = config();
    let mut db = ThingDb::from_things(vec![("R".to_string(), active(3, "R", true))]);
    db.manage("R", Outcome::Mqtt(MqttOutcome::Connected), &cfg).unwrap();
    db.hub_tx("R", &[msg("a", "x€y"), msg("b", "z")]).unwrap();
    while let Some(m) = db.take_outbound("R") {
        db.deliver("R", m).unwrap();
    }
    let got = db.hub_rx("R").unwrap();
    assert_eq!(got.len(), 2);
    assert_eq!((got[0].topic.as_str(), got[0].msg.as_str()), ("a", "xy"));
    assert_eq!((got[1].topic.as_str(), got[1].msg.as_str()), ("b", "z"));
}

#[test]
fn reload_rebuilds_index_and_keeps_first() {
    let db = ThingDb::from_things(vec![
        ("A".to_string(), active(1, "A", true)),
        ("B".to_string(), ThingSyncState::Created(request("B"))),
        ("A".to_string(), ThingSyncState::Created(request("A"))),
    ]);
    assert_eq!(db.serials(), vec!["A".to_string(), "B".to_string()]);
    assert!(matches!(db.get("A").unwrap().thing, ThingSyncState::Active(_)));
}

#[test]
fn settle_rolls_back_on_failed_write() {
    let mut v = vec![1, 2, 3];
    settle(&mut v, vec![1, 2], false);
    assert_eq!(v, vec![1, 2]);
    let mut w = vec![4];
    settle(&mut w, vec![], true);
    assert_eq!(w, vec![4]);
}

#[test]
fn hub_thing_queues() {
    let mut t = HubThing::new(ThingSyncState::Created(request("H")));
    t.push_inbound(msg("i", "1"));
    t.push_inbound(msg("i", "2"));
    let got = t.drain_inbound();
    assert_eq!(got.len(), 2);
    assert_eq!(got[1].msg, "2");
    assert!(t.drain_inbound().is_empty());
    let td = t.extract("H".to_string());
    assert_eq!(td.serial, "H");
}
