[package]
name = "deltatable"
version = "0.1.0"
edition = "2021"
publish = false

[dependencies]
deltalake = "=0.17.3"
duckdb = { version = "=0.10.2", features = ["vtab"] }
duckdb-loadable-macros = "=0.1.1"
libduckdb-sys = "=0.10.2"
parquet = "=51.0.0"
tokio = { version = "=1.54.1", features = ["rt", "macros"] }
lazy_static = "=1.5.1"
log = "=0.4.35"
pretty_env_logger = "=0.5.0"
argparse-rs = "=0.1.0"
chrono = "=0.4.39"
