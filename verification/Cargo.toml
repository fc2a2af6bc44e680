[package]
name = "railway"
version = "0.1.0"
edition = "2021"
publish = false

[dependencies]
chrono = "=0.4.45"
chrono-tz = "=0.10.4"
gettext-rs = { version = "=0.7.7", features = ["gettext-system"] }
railway-core = { version = "=0.3.0", features = ["serde"] }
railway-api = { version = "=0.3.1", features = ["bls-provider", "cmta-provider", "dart-provider", "pkp-provider", "vrn-provider"] }
serde = { version = "=1.0.229", features = ["derive"] }
serde_json = "=1.0.154"
tokio = { version = "=1.54.1", features = ["rt-multi-thread", "time"] }
gtk4 = "=0.9.7"
gdk4 = "=0.9.6"
glib = "=0.20.12"
libadwaita = "=0.7.2"
log = "=0.4.35"
once_cell = "=1.21.4"
