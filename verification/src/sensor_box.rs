//! Configuration of the sensor box, a stand-alone client that runs sensors
//! and actors away from the supervisor.
use crate::config::{all_distinct, hardware_ids, Hardware};
use crate::logger::LogLevel;
use crate::nats::{Authorization, NatsClientConfig};
use crate::pub_sub::ClientId;
use crate::actor::ActorType;
use crate::sensor::{SensorError, SensorType};
use vstd::prelude::*;

verus! {

/// General settings of the sensor box.
#[derive(Clone, Debug)]
pub struct General {
    pub client_name: String,
    pub log_level: LogLevel,
}

impl General {
    /// An unnamed box logging at `Info`.
    pub fn default() -> (r: General)
        ensures
            r.client_name@ == "No name"@,
            r.log_level == LogLevel::Info,
    {
        General { client_name: "No name".to_owned(), log_level: LogLevel::Info }
    }
}

/// NATS client settings as written in the sensor box configuration file.
#[derive(Clone, Debug)]
pub struct ParseNatsClientConfig {
    pub host: String,
    pub port: u32,
    pub user: String,
    pub pass: String,
}

impl ParseNatsClientConfig {
    /// The client settings, with `user` and `pass` as credentials.
    pub fn into_client_config(self) -> (r: NatsClientConfig)
        ensures
            r.host == self.host,
            r.port == self.port,
            r.authorization.user == self.user,
            r.authorization.password == self.pass,
    {
        NatsClientConfig::new(self.host, self.port, Authorization::new(self.user, self.pass))
    }
}

/// The sensor box configuration as written in the file.
#[derive(Clone, Debug)]
pub struct ParseSensorBoxConfig {
    pub general: General,
    pub hardware: Hardware,
    pub nats: ParseNatsClientConfig,
}

/// Errors of the sensor box.
#[derive(Clone, Debug, PartialEq, Eq)]
pub enum SensorBoxError {
    Io(String),
    Missing(ClientId),
    AlreadyActive(ClientId),
    Actor(String),
    Sensor(SensorError),
    PubSub(String),
    Config(String),
    ThreadJoin(ClientId),
}

/// Configuration of the sensor box.
#[derive(Clone, Debug)]
pub struct SensorBoxConfig {
    pub general: General,
    pub hardware: Hardware,
    pub nats: NatsClientConfig,
}

impl SensorBoxConfig {
    /// A development box with a dummy sensor and actor.
    pub fn dummy() -> (r: SensorBoxConfig)
        ensures
            r.general.client_name@ == "No name"@,
            r.general.log_level == LogLevel::Info,
            r.hardware.sensors@.len() == 1,
            r.hardware.sensors@[0].id.0@ == "dummy_sensor"@,
            r.hardware.sensors@[0].type_ matches SensorType::Dummy(p) && p == 1000,
            r.hardware.actors@.len() == 1,
            r.hardware.actors@[0].id.0@ == "dummy_actor"@,
            r.hardware.actors@[0].type_ matches ActorType::SimpleGpio { pin_number, time_out }
                && pin_number == 0 && time_out is None,
            r.nats.host@ == "localhost"@,
            r.nats.port == 4222,
            r.nats.authorization.user@ == "user"@,
            r.nats.authorization.password@ == "passwd"@,
    {
        SensorBoxConfig {
            general: General::default(),
            hardware: Hardware::dummy(),
            nats: NatsClientConfig::dummy(),
        }
    }

    /// The configuration read from the file.
    pub fn from_parse(parse: ParseSensorBoxConfig) -> (r: SensorBoxConfig)
        ensures
            r.general == parse.general,
            r.hardware == parse.hardware,
            r.nats.host == parse.nats.host,
            r.nats.port == parse.nats.port,
            r.nats.authorization.user == parse.nats.user,
            r.nats.authorization.password == parse.nats.pass,
    {
        let ParseSensorBoxConfig { general, hardware, nats } = parse;
        SensorBoxConfig { general, hardware, nats: nats.into_client_config() }
    }

    /// Checks that every sensor and actor has its own client id.
    pub fn validate(pres: SensorBoxConfig) -> (r: Result<SensorBoxConfig, SensorBoxError>)
        ensures
            all_distinct(hardware_ids(&pres.hardware)) ==> r == Ok::<
                SensorBoxConfig,
                SensorBoxError,
            >(pres),
            !all_distinct(hardware_ids(&pres.hardware)) ==> (r matches Err(
                SensorBoxError::Config(m),
            ) && m@ == "Non-unique client IDs"@),
    {
        if pres.hardware.validate() {
            Ok(pres)
        } else {
            Err(SensorBoxError::Config("Non-unique client IDs".to_owned()))
        }
    }
}

/// Command line of the sensor box program.
#[derive(Clone, Debug)]
pub enum Opt {
    /// Run the sensor box with the configuration file at `config_file`.
    Run { config_file: String },
}

} // verus!
