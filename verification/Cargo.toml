[package]
name = "ace-bot"
version = "0.1.0"
edition = "2021"
publish = false

[dependencies]
users = "=0.11.0"
mktemp = "=0.5.1"
tokio = { version = "=1.54.1", features = ["fs", "io-util", "macros", "process", "rt-multi-thread", "time"] }
reqwest = { version = "=0.13.5", features = ["multipart"] }
clap = { version = "=4.6.7", features = ["derive", "env"] }
thiserror = "=2.0.21"
log = "=0.4.34"
anyhow = "=1.0.104"
futures = "=0.3.34"
tracing-subscriber = "=0.3.23"
teloxide = "=0.17.0"
# teloxide-core takes any takecell 0.1, and 0.1.2 asks for Rust 1.96: the
# release before it is held here so that teloxide builds with Rust 1.95.
takecell = "=0.1.1"
# matrix-sdk is left out: beside teloxide it makes the lock file larger than
# this project allows. app/matrix.rs needs it added to build.

[dev-dependencies]
regex = "=1.13.1"
