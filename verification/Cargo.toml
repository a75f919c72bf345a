[package]
name = "tableau_monitoring_execd"
version = "0.1.0"
edition = "2021"
publish = false

[dependencies]
clap = { version = "4", features = ["env"] }
cookie = "*"
roxmltree = "*"
rustls = "0.23"
serde = { version = "1", features = ["derive"] }
thrift = "*"
ureq = { version = "2", features = ["json", "cookies"] }
