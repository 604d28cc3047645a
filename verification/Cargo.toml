[package]
name = "rusty_bicycle"
version = "0.1.0"
edition = "2021"
publish = false

[dependencies]
btleplug = "*"
futures = "0.3"
log = "0.4"
pretty_env_logger = "*"
structopt = "0.3"
tokio = { version = "1", features = ["macros", "rt-multi-thread"] }
uuid = "1"
