[package]
name = "command_center"
version = "0.1.0"
edition = "2021"
publish = false

[dependencies]
bcrypt = "0.17"
chrono = { version = "0.4", default-features = false, features = ["std"] }
gritshield = "0.3"
maud = "0.27"
sea-orm = { version = "1.1", default-features = false, features = ["sqlx-postgres", "runtime-tokio-rustls", "macros", "with-chrono"] }
sqlx = { version = "0.8", default-features = false, features = ["postgres", "migrate"] }
tokio = { version = "1", features = ["macros", "rt-multi-thread", "time", "net", "sync"] }
tokio-tungstenite = { version = "*", default-features = false }
futures-util = { version = "0.3", default-features = false, features = ["sink"] }
serde = { version = "1", features = ["derive"] }
serde_json = "1"
