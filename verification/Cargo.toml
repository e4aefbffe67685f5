[package]
name = "tisq"
version = "0.1.0"
edition = "2021"
publish = false

[dependencies]
argh = "0.1"
async-std = "1"
async-trait = "0.1"
dirs = "5"
eyre = "0.6"
futures = "0.3"
itertools = "0.12"
kv = { version = "0.24", features = ["json-value"] }
log = "0.4"
once_cell = "1"
ordered_hash_map = "*"
serde = { version = "1", features = ["derive"] }
sqlx = { version = "0.7", default-features = false, features = ["runtime-async-std", "postgres", "bigdecimal", "time", "uuid", "ipnetwork", "mac_address", "bit-vec", "json"] }
sqlx-postgres = { version = "0.7", default-features = false, features = ["bigdecimal", "time", "uuid", "ipnetwork", "mac_address", "bit-vec", "json"] }
toml = "0.8"
tracing = "0.1"
tracing-subscriber = { version = "0.3", features = ["env-filter"] }
tui-realm-stdlib = "1"
tui-realm-textarea = "1"
tui-realm-treeview = "1"
tuirealm = { version = "1.9", features = ["serialize"] }
uuid = { version = "1", features = ["v4", "serde"] }
