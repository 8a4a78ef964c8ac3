[package]
name = "dogi"
version = "0.3.0"
edition = "2021"
publish = false

[dependencies]
clap = { version = "4", features = ["derive"] }
gio = "*"
keyring = "3"
libc = "0.2"
semver = "1"
serde = { version = "1", features = ["derive"] }
serde_json = "1"
sha2 = "0.10"
ssh-key = { version = "0.6", features = ["ed25519"] }
tar = "0.4"
ureq = { version = "3", features = ["json", "platform-verifier"] }
zbus = "5"
zstd = "0.13"
