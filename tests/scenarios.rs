use hub_sdk::{
    CarePackage, Command, HubError, HubSDK, MqttOutcome, Outcome, PartialThingMessage, Resource,
    ResourceMethod, RunnerConfig, ServiceCredentials, Thing, ThingCertificates, ThingDb,
    ThingRequest, ThingSyncState,
};

const UUID1: u128 = 0x2cb7f29a_527b_11e7_b114_b2f933d5fe66;
const THING_U: u128 = 0x936da01f_9abd_4d9d_80c7_02af85c822a8;

fn config() -> RunnerConfig {
    RunnerConfig {
        certificate_storage: "/tmp/certs".to_string(),
        mqtt_host: "mqtt.example.io".to_string(),
        mqtt_port: 8883,
    }
}

fn package(token: Option<&str>) -> CarePackage {
    CarePackage { token_opt: token.map(|t| t.to_string()), config: config() }
}

fn request(serial: &str) -> ThingRequest {
    ThingRequest { name: "x".to_string(), serial_number: serial.to_string(), thing_type: UUID1 }
}

fn cloud_thing(serial: &str) -> Thing {
    Thing {
        id: THING_U,
        name: "x".to_string(),
        serial_number: serial.to_string(),
        thing_type: UUID1,
        certs: Some(ThingCertificates {
            ca: "CA".to_string(),
            cert: "CERT".to_string(),
            key: "KEY".to_string(),
        }),
    }
}

fn resources() -> Vec<Resource> {
    vec![
        Resource { uri: "t/out".to_string(), method: ResourceMethod::Pub },
        Resource { uri: "t/in".to_string(), method: ResourceMethod::Sub },
    ]
}

fn fresh_sdk() -> HubSDK {
    HubSDK::new(ServiceCredentials::default(), ThingDb::new())
}

fn logged_in_sdk() -> HubSDK {
    let mut sdk = fresh_sdk();
    sdk.login("u@e", Some("tok".to_string())).unwrap();
    sdk
}

/// Drives "ABC" through three ticks, as the runner does with a cloud stub.
fn run_scenario_c(sdk: &mut HubSDK) -> Vec<String> {
    let pkg = package(Some("tok"));
    let cfg = config();

    // Tick one: lookup, then create.
    match sdk.things.next_command("ABC", &pkg).unwrap() {
        Command::LookUpSerial(s) => assert_eq!(s, "ABC"),
        other => panic!("unexpected {:?}", other),
    }
    let (cmd, act) = sdk.things.manage("ABC", Outcome::LookupDone(false), &cfg).unwrap();
    assert!(act.is_none());
    match cmd {
        Command::Register(r) => assert_eq!(r.serial_number, "ABC"),
        other => panic!("unexpected {:?}", other),
    }
    let (cmd, act) =
        sdk.things.manage("ABC", Outcome::Registered(Some(cloud_thing("ABC"))), &cfg).unwrap();
    assert!(matches!(cmd, Command::Idle));
    assert!(act.is_none());
    assert!(matches!(
        sdk.things.get("ABC").unwrap().thing,
        ThingSyncState::GatheringMetadata(_)
    ));

    // Tick two: resources.
    match sdk.things.next_command("ABC", &pkg).unwrap() {
        Command::FetchResources(t) => assert_eq!(t, UUID1),
        other => panic!("unexpected {:?}", other),
    }
    let (cmd, act) =
        sdk.things.manage("ABC", Outcome::Resources(Some(resources())), &cfg).unwrap();
    assert!(matches!(cmd, Command::Idle));
    assert_eq!(act, Some(THING_U));
    assert!(matches!(sdk.things.get("ABC").unwrap().thing, ThingSyncState::Active(_)));

    // Tick three: MQTT bring-up.
    let subs = match sdk.things.next_command("ABC", &pkg).unwrap() {
        Command::BringUpMqtt(plan) => {
            assert_eq!(plan.client_id, "936da01f-9abd-4d9d-80c7-02af85c822a8");
            assert_eq!(plan.ca, "CA");
            assert_eq!(plan.port, 8883);
            plan.subscriptions
        }
        other => panic!("unexpected {:?}", other),
    };
    let (cmd, _) =
        sdk.things.manage("ABC", Outcome::Mqtt(MqttOutcome::Connected), &cfg).unwrap();
    assert!(matches!(cmd, Command::Idle));
    subs
}

#[test]
fn scenario_a_login_then_check() {
    let mut sdk = fresh_sdk();
    assert!(sdk.login("u@e", Some("tok".to_string())).is_ok());
    assert_eq!(sdk.check_token(true), ("u@e".to_string(), true));
}

#[test]
fn scenario_b_duplicate_serial() {
    let mut sdk = fresh_sdk();
    assert_eq!(sdk.create_thing(request("ABC")), Ok(()));
    assert_eq!(sdk.create_thing(request("ABC")), Err(HubError::DuplicateSerial));
    assert_eq!(sdk.things.serials(), vec!["ABC".to_string()]);
}

#[test]
fn scenario_c_three_ticks_to_session() {
    let mut sdk = logged_in_sdk();
    sdk.create_thing(request("ABC")).unwrap();
    let subs = run_scenario_c(&mut sdk);
    assert_eq!(subs, vec!["t/in".to_string()]);
    match &sdk.things.get("ABC").unwrap().thing {
        ThingSyncState::Active(m) => {
            assert!(m.mqtt_connected);
            assert_eq!(
                m.ca_file_name.as_deref(),
                Some("/tmp/certs/936da01f-9abd-4d9d-80c7-02af85c822a8.ca.crt")
            );
        }
        _ => panic!("not active"),
    }
}

#[test]
fn scenario_d_send_then_publish() {
    let mut sdk = logged_in_sdk();
    sdk.create_thing(request("ABC")).unwrap();
    run_scenario_c(&mut sdk);
    let msgs = vec![PartialThingMessage { topic: "t/out".to_string(), msg: "hi".to_string() }];
    sdk.send_messages("ABC", &msgs).unwrap();
    assert!(matches!(
        sdk.things.next_command("ABC", &package(Some("tok"))).unwrap(),
        Command::Publish
    ));
    let out = sdk.things.take_outbound("ABC").unwrap();
    assert_eq!(out.topic, "t/out");
    assert_eq!(out.msg, "hi");
    assert!(sdk.things.take_outbound("ABC").is_none());
}

#[test]
fn scenario_e_receive_then_empty() {
    let mut sdk = logged_in_sdk();
    sdk.create_thing(request("ABC")).unwrap();
    run_scenario_c(&mut sdk);
    let inbound = PartialThingMessage { topic: "t/in".to_string(), msg: "pong".to_string() };
    sdk.things.deliver("ABC", inbound).unwrap();
    let got = sdk.receive_messages("ABC").unwrap();
    assert_eq!(got.len(), 1);
    assert_eq!(got[0].topic, "t/in");
    assert_eq!(got[0].msg, "pong");
    assert!(sdk.receive_messages("ABC").unwrap().is_empty());
}

#[test]
fn scenario_f_logout_releases_everything() {
    let mut sdk = logged_in_sdk();
    sdk.create_thing(request("ABC")).unwrap();
    run_scenario_c(&mut sdk);
    let released = sdk.logout();
    assert_eq!(released.len(), 1);
    assert_eq!(released[0].serial, "ABC");
    assert!(released[0].close_session);
    assert_eq!(
        released[0].files,
        vec![
            "/tmp/certs/936da01f-9abd-4d9d-80c7-02af85c822a8.ca.crt".to_string(),
            "/tmp/certs/936da01f-9abd-4d9d-80c7-02af85c822a8.crt".to_string(),
            "/tmp/certs/936da01f-9abd-4d9d-80c7-02af85c822a8.key".to_string(),
        ]
    );
    assert_eq!(sdk.check_token(false), (String::new(), false));
    assert!(sdk.things.serials().is_empty());
}
