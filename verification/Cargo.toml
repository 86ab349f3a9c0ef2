[package]
name = "abc_chatter_bot"
version = "0.1.0"
edition = "2021"
publish = false

[dependencies]
async-trait = "0.1"
base64 = "0.21"
bytes = "1"
chrono = "0.4"
diesel = "2"
dotenv = "0.15"
fern = "0.6"
itertools = "0.10"
log = "0.4"
rand = "0.8"
reqwest = { version = "0.11", default-features = false, features = ["json", "rustls-tls"] }
sea-orm-migration = { version = "0.11", default-features = false }
serde = { version = "1", features = ["derive"] }
serenity = { version = "0.11", features = ["collector", "voice", "framework", "standard_framework"] }
songbird = "0.3"
tokio = { version = "1", features = ["macros", "rt-multi-thread"] }
