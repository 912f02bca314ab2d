[package]
name = "phonebook"
version = "0.1.0"
edition = "2021"
publish = false

[dependencies]
clap = { version = "4", features = ["derive"] }
console-subscriber = "0.4"
dotenvy = "0.15"
sqlx = { version = "0.8", default-features = false, features = ["postgres", "runtime-tokio"] }
tokio = { version = "1", features = ["macros", "net", "rt-multi-thread", "sync", "time", "tracing"] }
tracing = "0.1"
tracing-subscriber = "0.3"
