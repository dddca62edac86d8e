[package]
name = "dots_client"
version = "0.1.0"
edition = "2021"
publish = false

[dependencies]
dotspb = "=0.4.0"
futures = "=0.3.34"
tokio = { version = "=1.54.1", features = ["macros", "rt-multi-thread"] }
tonic = "=0.9.2"
uuid = { version = "=1.29.0", features = ["v4"] }
