[package]
name = "builder_api"
version = "0.1.0"
edition = "2021"
publish = false

[dependencies]
base64 = "=0.9.3"
bodyparser = "=0.8.0"
iron = "=0.6.1"
log = "0.4"
params = "=0.8.0"
persistent = "=0.4.0"
router = "=0.6.0"
serde = { version = "=1.0.229", features = ["derive"] }
serde_json = "=1.0.154"
typemap = "=0.3.3"
