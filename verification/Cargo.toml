[package]
name = "bulx"
version = "0.1.0"
edition = "2021"
publish = false

[dependencies]
anyhow = "1"
clap = { version = "4", features = ["derive"] }
enumflags2 = "0.7"
landlock = "*"
libc = "0.2"
nix = { version = "0.29", features = ["ptrace", "signal", "term", "fs", "process", "poll", "uio"] }
seccompiler = "*"
serde = { version = "1", features = ["derive"] }
serde_json = "1"
toml = "*"
