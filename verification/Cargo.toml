[package]
name = "brewfatherlog"
version = "0.1.0"
edition = "2021"
publish = false

[dependencies]
serde_json = "*"
time = { version = "*", features = ["formatting", "std"] }
reqwest = { version = "*", default-features = false, features = ["json", "cookies"] }
tokio = { version = "*", features = ["rt-multi-thread", "macros", "time"] }
serde = { version = "*", features = ["derive"] }
serde_derive = "*"
toml = "*"
dirs = "*"
log = "*"
simplelog = "*"
humantime = "*"
thiserror = "*"
