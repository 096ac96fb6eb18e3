[package]
name = "tg_notify"
version = "0.1.0"
edition = "2021"
publish = false

[dependencies]
clap = { version = "=4.6.7", features = ["derive"] }
log = "=0.4.34"
pretty_env_logger = "=0.5.0"
serde_json = "=1.0.151"
# Not used directly: holds teloxide-core's transitive takecell below 0.1.2,
# whose required rustc is newer than this toolchain's.
takecell = "=0.1.1"
teloxide = { version = "=0.17.0", default-features = false }
tokio = { version = "=1.53.2", features = ["macros", "rt-multi-thread"] }
