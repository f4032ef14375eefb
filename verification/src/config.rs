//! The supervisor's configuration: general settings, the hardware (sensors
//! and actors), and the NATS server, with the checks applied once the
//! configuration file has been read.
use crate::actor::{ActorConfig, ActorType};
use crate::logger::{rank, LogLevel};
use crate::nats::{Authorization, NatsServerConfig, WebSocket};
use crate::pub_sub::ClientId;
use crate::sensor::{SensorConfig, SensorType};
use crate::text::push_text;
use vstd::prelude::*;

verus! {

/// General settings of the brewery.
#[derive(Clone, Debug)]
pub struct General {
    pub brewery_name: String,
    pub log_level: LogLevel,
}

impl General {
    /// An unnamed brewery logging at `Info`.
    pub fn default() -> (r: General)
        ensures
            r.brewery_name@ == "No name"@,
            r.log_level == LogLevel::Info,
    {
        General { brewery_name: "No name".to_owned(), log_level: LogLevel::Info }
    }
}

/// The sensors and actors of the brewery.
#[derive(Clone, Debug)]
pub struct Hardware {
    pub actors: Vec<ActorConfig>,
    pub sensors: Vec<SensorConfig>,
}

/// The client ids of the hardware, sensors first, then actors.
pub open spec fn hardware_ids(h: &Hardware) -> Seq<Seq<char>> {
    h.sensors@.map_values(|c: SensorConfig| c.id.0@) + h.actors@.map_values(
        |c: ActorConfig| c.id.0@,
    )
}

/// No text occurs twice in `s`.
pub open spec fn all_distinct(s: Seq<Seq<char>>) -> bool {
    forall|i: int, j: int| 0 <= i < j < s.len() ==> s[i] != s[j]
}

/// Ids are unique exactly when the number of distinct ids equals the number
/// of clients.
pub proof fn law_unique_ids_by_count(ids: Seq<Seq<char>>)
    ensures
        all_distinct(ids) <==> ids.to_set().len() == ids.len(),
{
    if all_distinct(ids) {
        assert(ids.no_duplicates()) by {
            assert forall|i: int, j: int|
                0 <= i < ids.len() && 0 <= j < ids.len() && i != j implies ids[i] != ids[j] by {
                if i > j {
                    assert(ids[j] != ids[i]);
                }
            }
        }
        ids.unique_seq_to_set();
    }
    if ids.to_set().len() == ids.len() {
        ids.lemma_no_dup_set_cardinality();
    }
}

impl Hardware {
    /// A dummy sensor and a dummy actor.
    pub fn dummy() -> (r: Hardware)
        ensures
            r.sensors@.len() == 1,
            r.sensors@[0].id.0@ == "dummy_sensor"@,
            r.sensors@[0].type_ matches SensorType::Dummy(p) && p == 1000,
            r.actors@.len() == 1,
            r.actors@[0].id.0@ == "dummy_actor"@,
            r.actors@[0].type_ matches ActorType::SimpleGpio { pin_number, time_out } && pin_number
                == 0 && time_out is None,
    {
        Hardware {
            sensors: vec![
                SensorConfig {
                    id: ClientId("dummy_sensor".to_owned()),
                    type_: SensorType::Dummy(1000),
                },
            ],
            actors: vec![
                ActorConfig {
                    id: ClientId("dummy_actor".to_owned()),
                    type_: ActorType::SimpleGpio { pin_number: 0, time_out: None },
                },
            ],
        }
    }

    /// Whether every sensor and actor has its own client id.
    pub fn validate(&self) -> (r: bool)
        ensures
            r == all_distinct(hardware_ids(self)),
    {
        let ghost ids = hardware_ids(self);
        let mut all: Vec<&String> = Vec::new();
        for i in 0..self.sensors.len()
            invariant
                ids == hardware_ids(self),
                all@.len() == i,
                forall|k: int| 0 <= k < i ==> #[trigger] all@[k]@ == ids[k],
        {
            all.push(&self.sensors[i].id.0);
        }
        let ns = self.sensors.len();
        for i in 0..self.actors.len()
            invariant
                ids == hardware_ids(self),
                ns == self.sensors@.len(),
                all@.len() == ns + i,
                forall|k: int| 0 <= k < ns + i ==> #[trigger] all@[k]@ == ids[k],
        {
            all.push(&self.actors[i].id.0);
        }
        let n = all.len();
        assert(n == ids.len());
        for j in 0..n
            invariant
                ids == hardware_ids(self),
                n == all@.len(),
                n == ids.len(),
                forall|k: int| 0 <= k < n ==> #[trigger] all@[k]@ == ids[k],
                forall|a: int, b: int| 0 <= a < b < j ==> ids[a] != ids[b],
        {
            for i in 0..j
                invariant
                    ids == hardware_ids(self),
                    n == all@.len(),
                    n == ids.len(),
                    j < n,
                    forall|k: int| 0 <= k < n ==> #[trigger] all@[k]@ == ids[k],
                    forall|a: int, b: int| 0 <= a < b < j ==> ids[a] != ids[b],
                    forall|a: int| 0 <= a < i ==> ids[a] != ids[j as int],
            {
                if *all[i] == *all[j] {
                    proof {
                        assert(all@[i as int]@ == ids[i as int]);
                        assert(all@[j as int]@ == ids[j as int]);
                        assert(ids[i as int] == ids[j as int]);
                        assert(!all_distinct(ids));
                    }
                    return false;
                }
            }
        }
        true
    }
}

/// NATS server settings as written in the supervisor's configuration file.
#[derive(Clone, Debug)]
pub struct ParseNatsServerConfig {
    /// Arbitrary server identifier.
    pub server_name: String,
    /// NATS host.
    pub host: String,
    /// NATS port.
    pub port: u32,
    /// User name.
    pub user: String,
    /// Password.
    pub pass: String,
    /// Port of the NATS monitoring web server.
    pub http_port: u32,
    /// Websocket settings.
    pub websocket: WebSocket,
    /// Path to the `nats-server` program.
    pub bin_path: String,
}

impl ParseNatsServerConfig {
    /// The server configuration, logging at debug level when `debug`.
    pub fn init(self, debug: bool) -> (r: NatsServerConfig)
        ensures
            r.server_name == self.server_name,
            r.host == self.host,
            r.port == self.port,
            r.http_port == self.http_port,
            r.debug == debug,
            r.authorization.user == self.user,
            r.authorization.password == self.pass,
            r.websocket == self.websocket,
    {
        NatsServerConfig::new(
            self.server_name,
            self.host,
            self.port,
            self.http_port,
            debug,
            Authorization::new(self.user, self.pass),
            self.websocket,
        )
    }
}

/// The NATS part of the supervisor configuration.
#[derive(Clone, Debug)]
pub struct NatsConfig {
    /// Path to the `nats-server` program.
    pub bin_path: String,
    pub server: NatsServerConfig,
}

impl NatsConfig {
    /// The development server, with its program under `nats/`.
    pub fn dummy() -> (r: NatsConfig)
        ensures
            r.bin_path@ == "nats/nats-server"@,
            r.server.server_name@ == "server-name"@,
            r.server.host@ == "localhost"@,
            r.server.port == 4222,
            r.server.http_port == 8888,
            r.server.debug,
            r.server.authorization.user@ == "user"@,
            r.server.authorization.password@ == "passwd"@,
            r.server.websocket.port == 9222,
            r.server.websocket.no_tls,
    {
        NatsConfig { bin_path: "nats/nats-server".to_owned(), server: NatsServerConfig::dummy() }
    }

    /// The NATS settings read from the file; the server logs at debug level
    /// exactly when the configured log level lets debug messages through.
    pub fn from_parsed(parse: ParseNatsServerConfig, log_level: LogLevel) -> (r: NatsConfig)
        ensures
            r.bin_path@ == parse.bin_path@,
            r.server.debug == (rank(log_level) <= rank(LogLevel::Debug)),
            r.server.server_name == parse.server_name,
            r.server.host == parse.host,
            r.server.port == parse.port,
            r.server.http_port == parse.http_port,
            r.server.authorization.user == parse.user,
            r.server.authorization.password == parse.pass,
            r.server.websocket == parse.websocket,
    {
        let bin_path = parse.bin_path.clone();
        NatsConfig { bin_path, server: parse.init(log_level.is_debug()) }
    }
}

/// The supervisor configuration as written in the file.
#[derive(Clone, Debug)]
pub struct ParseSupervisorConfig {
    pub general: General,
    pub hardware: Hardware,
    pub nats: ParseNatsServerConfig,
}

/// Errors of reading the supervisor configuration.
#[derive(Clone, Debug, PartialEq, Eq)]
pub enum SupervisorConfigError {
    /// The file could not be read.
    Io(String),
    /// The settings are inconsistent.
    Config(String),
    /// The file is not a valid configuration.
    Parse(String),
}

/// Main supervisor configuration.
#[derive(Clone, Debug)]
pub struct SupervisorConfig {
    pub general: General,
    pub hardware: Hardware,
    pub nats: NatsConfig,
}

impl SupervisorConfig {
    /// The configuration of a development setup.
    pub fn dummy() -> (r: SupervisorConfig)
        ensures
            r.general.brewery_name@ == "No name"@,
            r.general.log_level == LogLevel::Info,
            r.nats.bin_path@ == "nats/nats-server"@,
            r.nats.server.host@ == "localhost"@,
            r.nats.server.server_name@ == "server-name"@,
            r.nats.server.port == 4222,
            r.nats.server.http_port == 8888,
            r.nats.server.debug,
            r.nats.server.authorization.user@ == "user"@,
            r.nats.server.authorization.password@ == "passwd"@,
            r.nats.server.websocket.port == 9222,
            r.nats.server.websocket.no_tls,
            r.hardware.sensors@.len() == 1,
            r.hardware.sensors@[0].id.0@ == "dummy_sensor"@,
            r.hardware.sensors@[0].type_ matches SensorType::Dummy(p) && p == 1000,
            r.hardware.actors@.len() == 1,
            r.hardware.actors@[0].id.0@ == "dummy_actor"@,
            r.hardware.actors@[0].type_ matches ActorType::SimpleGpio { pin_number, time_out }
                && pin_number == 0 && time_out is None,
    {
        SupervisorConfig {
            general: General::default(),
            nats: NatsConfig::dummy(),
            hardware: Hardware::dummy(),
        }
    }

    /// The configuration read from the file: its general and hardware parts
    /// as they are, and the NATS server logging at debug level exactly when
    /// the general log level lets debug messages through.
    pub fn from_parse(parse: ParseSupervisorConfig) -> (r: SupervisorConfig)
        ensures
            r.general == parse.general,
            r.hardware == parse.hardware,
            r.nats.bin_path@ == parse.nats.bin_path@,
            r.nats.server.debug == (rank(parse.general.log_level) <= rank(LogLevel::Debug)),
            r.nats.server.server_name == parse.nats.server_name,
            r.nats.server.host == parse.nats.host,
            r.nats.server.port == parse.nats.port,
            r.nats.server.http_port == parse.nats.http_port,
            r.nats.server.authorization.user == parse.nats.user,
            r.nats.server.authorization.password == parse.nats.pass,
            r.nats.server.websocket == parse.nats.websocket,
    {
        let ParseSupervisorConfig { general, hardware, nats } = parse;
        let level = general.log_level;
        SupervisorConfig { general, hardware, nats: NatsConfig::from_parsed(nats, level) }
    }

    /// Checks a configuration read from the file: client ids must be unique,
    /// and the `nats-server` program must exist (`nats_bin_exists` says
    /// whether it does).
    pub fn validate(pres: SupervisorConfig, nats_bin_exists: bool) -> (r: Result<
        SupervisorConfig,
        SupervisorConfigError,
    >)
        ensures
            !all_distinct(hardware_ids(&pres.hardware)) ==> (r matches Err(
                SupervisorConfigError::Config(m),
            ) && m@ == "Non-unique client IDs"@),
            all_distinct(hardware_ids(&pres.hardware)) && !nats_bin_exists ==> (r matches Err(
                SupervisorConfigError::Config(m),
            ) && m@ == "NATS server bin '"@ + pres.nats.bin_path@ + "' missing"@),
            all_distinct(hardware_ids(&pres.hardware)) && nats_bin_exists ==> r == Ok::<
                SupervisorConfig,
                SupervisorConfigError,
            >(pres),
    {
        if !pres.hardware.validate() {
            return Err(SupervisorConfigError::Config("Non-unique client IDs".to_owned()));
        }
        if !nats_bin_exists {
            let mut m = "NATS server bin '".to_owned();
            push_text(&mut m, pres.nats.bin_path.as_str());
            push_text(&mut m, "' missing");
            return Err(SupervisorConfigError::Config(m));
        }
        Ok(pres)
    }
}

} // verus!
