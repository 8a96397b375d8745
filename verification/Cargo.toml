[package]
name = "tchat"
version = "0.1.0"
edition = "2021"
publish = false

[dependencies]
ansi_term = "0.12"
chrono = "0.4"
tokio = { version = "1", features = ["macros", "rt-multi-thread"] }
twitch-irc = "*"
