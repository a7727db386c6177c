[package]
name = "zuzarule"
version = "0.1.0"
edition = "2021"
publish = false

[dependencies]
hashbrown = "=0.14.5"
teloxide = "=0.12.2"
tokio = { version = "=1.53.2", features = ["macros", "rt-multi-thread"] }
dotenv = "=0.15.0"
log = "=0.4.34"
parking_lot = "=0.12.5"
anyhow = "=1.0.104"
tracing-subscriber = { version = "=0.3.23", features = ["env-filter"] }
takecell = "=0.1.1"
