[package]
name = "rower_bridge"
version = "0.1.0"
edition = "2021"
publish = false

[dependencies]
btleplug = "=0.13.4"
futures = "=0.3.34"
tokio = { version = "=1.53.2", features = ["sync", "rt-multi-thread", "macros", "net", "time", "io-util", "io-std"] }
tokio-stream = "=0.1.19"
tokio-util = { version = "=0.7.19", features = ["codec"] }
uuid = { version = "=1.27.0", features = ["v4"] }
warp = { version = "=0.4.3", features = ["server", "websocket"] }
