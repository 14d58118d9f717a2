[package]
name = "be"
version = "0.1.0"
edition = "2021"
publish = false

[dependencies]
bytes = "*"
camino = "*"
clap = { version = "*", features = ["derive"] }
color-eyre = "*"
const-random = "*"
dashmap = "*"
derive_more = { version = "*", features = ["display"] }
etcetera = "*"
num-format = "*"
saphyr = "*"
serde = { version = "*", features = ["derive"] }
serde_json = "*"
sqlx = { version = "*", default-features = false, features = ["runtime-tokio", "sqlite"] }
tempfile = "*"
tokio = { version = "*", features = ["fs", "io-std", "io-util", "macros", "process", "rt-multi-thread", "sync"] }
tracing = "*"
tracing-error = "*"
tracing-indicatif = "*"
tracing-subscriber = { version = "*", features = ["env-filter"] }
tree-sitter = "*"
tree-sitter-haskell = "*"
twox-hash = "*"
which = "*"
