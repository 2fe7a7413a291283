[package]
name = "galvyn_auth"
version = "0.1.0"
edition = "2021"
publish = false

[dependencies]
webauthn-rs = { version = "0.5", features = ["attestation", "danger-allow-state-serialisation"] }
openidconnect = { version = "4", features = ["reqwest"] }
url = "2"
uuid = { version = "1", features = ["v4"] }
serde = { version = "1", features = ["derive"] }
serde_json = "1"
reqwest = { version = "0.12", default-features = false, features = ["rustls-tls"] }
