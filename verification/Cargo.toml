[package]
name = "p2p_chat"
version = "0.1.0"
edition = "2021"
publish = false

[dependencies]
color-eyre = "=0.6.5"
futures = "=0.3.34"
libp2p = { version = "=0.52.4", features = ["floodsub", "macros", "mdns", "noise", "tcp", "tokio", "yamux"] }
libp2p-mplex = "0.40.0"
tokio = { version = "=1.54.1", features = ["io-std", "io-util", "macros", "rt-multi-thread"] }
