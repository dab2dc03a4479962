[package]
name = "mostlybot"
version = "0.1.0"
edition = "2021"
publish = false

[dependencies]
rand = "0.8"
anyhow = "1"
serde = { version = "1", features = ["derive"] }
serde_json = "1"
tracing = "0.1"
tracing-subscriber = "0.3"
log = "0.4"
tokio = { version = "1", features = ["full"] }
tokio-util = "0.7"
twitcheventsub = "0.1"
franz-client = "*"
strum = { version = "*", features = ["derive"] }
ctrlc = "3"
memmap2 = "0.9"
mmap-wrapper = "*"
