[package]
name = "mint_migration"
version = "0.1.0"
edition = "2021"
publish = false

[dependencies]
anyhow = "1"
cdk-common = "=0.9.3"
cdk-redb = "=0.9.3"
cdk-sqlite = "=0.9.3"
clap = { version = "4", features = ["derive"] }
home = "0.5"
redb = "2"
serde_json = "1"
tokio = { version = "1", features = ["macros", "rt-multi-thread"] }
tracing = "0.1"
tracing-subscriber = { version = "0.3", features = ["env-filter"] }
