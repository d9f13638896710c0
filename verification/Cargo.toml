[package]
name = "openai_orch"
version = "0.1.0"
edition = "2021"
publish = false

[dependencies]
tinyrand = "=0.5.0"
tinyrand-std = "=0.5.0"
tokio = { version = "=1.53.2", features = ["sync", "time", "rt-multi-thread", "macros"] }
async-openai = { version = "=0.42.1", features = ["chat-completion", "embedding"] }
async-trait = "=0.1.92"
dotenv = "=0.15.0"
log = "=0.4.34"
