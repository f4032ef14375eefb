use bryggio::actor::{ActorConfig, ActorType};
use bryggio::config::{
    Hardware, NatsConfig, ParseNatsServerConfig, ParseSupervisorConfig, SupervisorConfig,
    SupervisorConfigError, General,
};
use bryggio::logger::LogLevel;
use bryggio::nats::{Authorization, NatsClientConfig, NatsServerConfig, WebSocket};
use bryggio::pub_sub::ClientId;
use bryggio::sensor::{SensorConfig, SensorType};
use bryggio::sensor_box::{ParseNatsClientConfig, ParseSensorBoxConfig, SensorBoxConfig, SensorBoxError};

fn parse_nats() -> ParseNatsServerConfig {
    ParseNatsServerConfig {
        server_name: String::from("bryggio-nats-server"),
        host: String::from("localhost"),
        port: 4222,
        user: String::from("username"),
        pass: String::from("passwd"),
        http_port: 8888,
        websocket: WebSocket { port: 9222, no_tls: true },
        bin_path: String::from("nats/nats-server"),
    }
}

fn hardware(ids: &[&str]) -> Hardware {
    Hardware {
        sensors: vec![SensorConfig { id: ClientId::from_text(ids[0]), type_: SensorType::Dummy(1000) }],
        actors: ids[1..]
            .iter()
            .map(|id| ActorConfig {
                id: ClientId::from_text(id),
                type_: ActorType::SimpleGpio { pin_number: 0, time_out: None },
            })
            .collect(),
    }
}

#[test]
fn test_nats_debug() {
    let parse = ParseSupervisorConfig {
        general: General { brewery_name: String::from("BB"), log_level: LogLevel::Info },
        hardware: hardware(&["mash", "mash_heater", "boil_heater"]),
        nats: parse_nats(),
    };
    let config = SupervisorConfig::from_parse(parse);
    assert!(!config.nats.server.debug);
    assert_eq!(config.nats.bin_path, "nats/nats-server");
    assert_eq!(config.nats.server.authorization.user, "username");
}

#[test]
fn debug_level_enables_server_debug() {
    let config = NatsConfig::from_parsed(parse_nats(), LogLevel::Debug);
    assert!(config.server.debug);
    assert_eq!(config.server.server_name, "bryggio-nats-server");
}

#[test]
fn unique_ids_validate() {
    assert!(hardware(&["mash", "mash_heater", "boil_heater"]).validate());
    assert!(!hardware(&["mash", "mash_heater", "mash"]).validate());
    assert!(!hardware(&["mash", "boil", "boil"]).validate());
    assert!(Hardware::dummy().validate());
}

#[test]
fn supervisor_config_validation() {
    let mut config = SupervisorConfig::dummy();
    assert!(SupervisorConfig::validate(config.clone(), true).is_ok());
    match SupervisorConfig::validate(config.clone(), false) {
        Err(SupervisorConfigError::Config(m)) => {
            assert_eq!(m, "NATS server bin 'nats/nats-server' missing")
        }
        _ => panic!("expected missing bin"),
    }
    config.hardware = hardware(&["a", "a"]);
    match SupervisorConfig::validate(config, true) {
        Err(SupervisorConfigError::Config(m)) => assert_eq!(m, "Non-unique client IDs"),
        _ => panic!("expected duplicate ids"),
    }
}

#[test]
fn nats_client_settings() {
    let c = NatsClientConfig::dummy();
    assert_eq!(c.nats_url(), "localhost:4222");
    let s = NatsServerConfig::new(
        String::from("s"),
        String::from("10.0.0.1"),
        0,
        1,
        false,
        Authorization::new(String::from("u"), String::from("p")),
        WebSocket::dummy(),
    );
    let c = NatsClientConfig::from_server(&s);
    assert_eq!(c.nats_url(), "10.0.0.1:0");
    assert_eq!(c.authorization.password, "p");
    let d = NatsServerConfig::dummy();
    assert_eq!(NatsClientConfig::from_server(&d).nats_url(), "localhost:4222");
    let big = NatsClientConfig::new(String::from("h"), u32::MAX, Authorization::dummy());
    assert_eq!(big.nats_url(), "h:4294967295");
}

#[test]
fn sensor_box_config() {
    let parse = ParseSensorBoxConfig {
        general: bryggio::sensor_box::General::default(),
        hardware: hardware(&["mash", "boil"]),
        nats: ParseNatsClientConfig {
            host: String::from("localhost"),
            port: 4222,
            user: String::from("username"),
            pass: String::from("passwd"),
        },
    };
    let config = SensorBoxConfig::from_parse(parse);
    assert_eq!(config.nats.authorization.user, "username");
    assert!(SensorBoxConfig::validate(config).is_ok());
    let mut dup = SensorBoxConfig::dummy();
    dup.hardware = hardware(&["x", "x"]);
    assert_eq!(
        SensorBoxConfig::validate(dup).err(),
        Some(SensorBoxError::Config(String::from("Non-unique client IDs")))
    );
}

#[test]
fn dummy_supervisor_config_values() {
    let c = SupervisorConfig::dummy();
    assert_eq!(c.nats.server.http_port, 8888);
    assert_eq!(c.nats.server.server_name, "server-name");
    assert_eq!(c.nats.server.authorization.user, "user");
    assert_eq!(c.nats.server.websocket.port, 9222);
    assert!(matches!(c.hardware.sensors[0].type_, bryggio::sensor::SensorType::Dummy(1000)));
    let b = SensorBoxConfig::dummy();
    assert!(matches!(
        b.hardware.actors[0].type_,
        bryggio::actor::ActorType::SimpleGpio { pin_number: 0, time_out: None }
    ));
}
