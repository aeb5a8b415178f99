[package]
name = "thenbot"
version = "0.1.0"
edition = "2021"
publish = false

[dependencies]
owoify_rs = "=1.1.0"
url = "2"
rand = "0.8"
rand_chacha = "0.3"
poise = "0.6"
tokio = { version = "1", features = ["macros", "rt-multi-thread", "signal", "process", "io-util", "time", "sync"] }
reqwest = { version = "0.11", default-features = false, features = ["rustls-tls"] }
youtube_dl = { version = "0.10", default-features = false }
chrono = "0.4"
futures = "0.3"
tracing = "0.1"
tracing-subscriber = { version = "0.3", default-features = false, features = ["fmt", "std"] }
thiserror = "1"
