[package]
name = "ccargo"
version = "0.1.0"
edition = "2021"
publish = false

[dependencies]
memchr = "2"
termcolor = "1"
anyhow = "1"
toml = "0.8"
serde = { version = "1", features = ["derive"] }
serde_ignored = "0.1"
semver = { version = "1", features = ["serde"] }
filetime = "0.2"
rayon = "1"
home = "0.5"
atty = "0.2"
cc = "1"
winapi = { version = "0.3", features = ["consoleapi", "minwindef"] }
