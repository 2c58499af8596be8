[package]
name = "fetching_cli"
version = "0.1.0"
edition = "2021"
publish = false

[dependencies]
hex = "=0.4.3"
serde = { version = "1", features = ["derive"] }
serde_json = "=1.0.154"
librespot-core = "=0.8.0"
librespot-metadata = "=0.8.0"
librespot-audio = "=0.8.0"
librespot-oauth = "=0.8.0"
# Not used by this crate: librespot-core's build script needs vergen-gitcl 1.0,
# which does not compile against vergen 9.1; this holds vergen at 9.0.
vergen = { version = "=9.0.6", default-features = false }
tokio = { version = "1", features = ["full"] }
clap = { version = "4", features = ["derive"] }
tracing = "0.1"
tracing-subscriber = { version = "0.3", features = ["env-filter"] }
libc = "0.2"
