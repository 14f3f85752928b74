[package]
name = "matrix_onebot"
version = "0.1.0"
edition = "2021"
publish = false

[dependencies]
matrix-sdk = { version = "=0.7.1", default-features = false }
ruma-common = "=0.12.1"
walle-core = { version = "=0.7.4", features = ["impl-obc", "http", "websocket"] }
rusqlite = { version = "=0.31.0", features = ["bundled"] }
tokio = { version = "=1.54.1", features = ["macros", "rt-multi-thread", "time"] }
serde = { version = "=1.0.229", features = ["derive"] }
toml = "=0.8.23"
tracing = "=0.1.44"
tracing-subscriber = "=0.3.23"
lazy_static = "=1.5.1"
once_cell = "=1.21.4"
anyhow = "=1.0.104"
async-trait = "=0.1.92"
clap = { version = "=4.6.7", features = ["derive"] }
