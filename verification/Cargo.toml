[package]
name = "warden"
version = "0.1.0"
edition = "2021"
publish = false

[dependencies]
asap = "=0.14.0"
magic-crypt = "=6.0.0"
ratelimit_meter = "=5.0.0"
serde = { version = "=1.0.229", features = ["derive"] }
serde_json = "=1.0.154"
validator = { version = "=0.21.0", features = ["derive"] }
heck = "=0.5.0"
regex = "=1.13.1"
uuid = { version = "=1.29.0", features = ["v4", "serde"] }
chrono = { version = "=0.4.45", features = ["serde"] }
log = "=0.4.34"
base64 = "=0.23.1"
diesel = { version = "=2.3.14", default-features = false, features = ["postgres", "r2d2", "chrono", "uuid"] }
once_cell = "=1.21.4"
warp = { version = "=0.3.7", default-features = false }
tokio = { version = "=1.54.1", features = ["rt-multi-thread"] }
dotenv = "=0.15.0"
envy = "=0.4.2"
erased-serde = "=0.4.10"
typename = "=0.1.2"
femme = "=2.2.1"
terminator = "=0.3.2"
