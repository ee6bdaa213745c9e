[package]
name = "russ"
version = "0.1.0"
edition = "2021"
publish = false

[dependencies]
anyhow = "*"
crossterm = "0.25"
futures-util = "*"
num_cpus = "*"
r2d2 = "*"
r2d2_sqlite = { version = "*", features = ["bundled"] }
structopt = "0.3"
tokio = { version = "*", features = ["rt", "time"] }
tui = "0.19"
