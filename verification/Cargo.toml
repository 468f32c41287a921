[package]
name = "rune"
version = "0.1.0"
edition = "2021"
publish = false

[dependencies]
deunicode = "1"
futures = "0.3"
log = "0.4"
num_cpus = "1"
rayon = "1"
rinf = "6"
rodio = { version = "0.19", default-features = false }
sea-orm = { version = "0.12", default-features = false, features = ["macros"] }
symphonia = "0.5"
tantivy = "0.22"
tokio = { version = "1", features = ["macros", "rt", "sync", "time"] }
tokio-util = "0.7"
