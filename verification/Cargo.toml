[package]
name = "chatpete"
version = "0.1.0"
edition = "2021"
publish = false

[dependencies]
anyhow = "1"
openai-api-rs = "4"
reqwest = { version = "0.11", default-features = false, features = ["rustls-tls"] }
serenity = "0.12"
shlex = "1"
tokio = { version = "1", features = ["macros", "rt-multi-thread"] }
unidecode = "0.3"
