//! Verified core of the BryggIO brewery control software.
//!
//! The library holds the logic of the brewery controller that works on plain
//! values: time stamps and actor cool-downs, pub-sub subjects and their
//! parsing, log levels and the log filter, configuration records and their
//! validation, DS18B20 sensor addresses, the discrete part of the control
//! tick, the brew bookkeeping of the state logger, the subsampling of stored
//! readings, pseudo-PWM timing, and the registry of active clients kept by
//! the supervisor. Temperatures, heater power and the control algorithms are
//! real-valued and live with the programs that use this library.
pub mod text;
pub mod time;
pub mod pub_sub;
pub mod logger;
pub mod state;
pub mod readings;
pub mod db_writer;
pub mod sensor;
pub mod hardware;
pub mod nats;
pub mod actor;
pub mod config;
pub mod sensor_box;
pub mod registry;
pub mod supervisor;
pub mod control;
pub mod model;
pub mod tick;
pub mod utils;
pub mod pwm;
