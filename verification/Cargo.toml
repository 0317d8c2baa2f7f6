[package]
name = "exchange_logs"
version = "0.1.0"
edition = "2021"
publish = false

[dependencies]
regex = "=1.13.1"
chrono = "=0.4.45"
encoding_rs = "=0.8.42"
tokio = { version = "=1.54.1", features = ["rt-multi-thread", "macros", "fs", "io-util"] }
tokio-postgres = { version = "=0.7.18", features = ["with-chrono-0_4"] }
postgres-types = { version = "=0.2.14", features = ["with-chrono-0_4"] }
deadpool-postgres = "=0.14.2"
tiberius = { version = "=0.12.3", default-features = false, features = ["tds73", "chrono"] }
bb8 = "=0.9.1"
bb8-tiberius = "=0.16.0"
async-trait = "=0.1.92"
bytes = "=1.12.1"
clap = { version = "=4.6.7", features = ["derive"] }
color-eyre = "=0.6.5"
colored = "=3.1.1"
env_logger = "=0.11.11"
futures = "=0.3.34"
indicatif = "=0.18.6"
log = "=0.4.34"
walkdir = "=2.5.0"
