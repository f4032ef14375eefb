[package]
name = "bryggio"
version = "0.4.0"
edition = "2021"
publish = false

[dependencies]
semver = "1"
serde = { version = "1", features = ["derive"] }
serde_json = "1"
thiserror = "1"
tokio = { version = "1", features = ["rt-multi-thread", "macros", "sync", "time", "net"] }
axum = "0.7"
sqlx = { version = "0.8", default-features = false, features = ["sqlite", "runtime-tokio"] }
tracing = "0.1"
tracing-subscriber = { version = "0.3", features = ["env-filter"] }
tokio-stream = { version = "0.1", features = ["sync"] }
futures = "0.3"
async-nats = "*"
nats = "*"
gpio-cdev = "0.6"
embedded-hal = "1"
rand = "0.9"
rand_distr = "0.5"
csv = "1"
itertools = "*"
structopt = "0.3"
url = "2"
ureq = "2"
shellexpand = "3"
env_logger = "*"
log = "0.4"
