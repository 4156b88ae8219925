[package]
name = "rs2026"
version = "0.1.0"
edition = "2021"
publish = false

[dependencies]
axum = "=0.8.9"
chrono = { version = "=0.4.45", features = ["serde"] }
diesel = { version = "=2.3.14", features = ["sqlite", "r2d2", "chrono", "returning_clauses_for_sqlite_3_35"] }
libsqlite3-sys = { version = "=0.38.2", features = ["bundled"] }
dotenvy = "=0.15.7"
serde = { version = "=1.0.229", features = ["derive"] }
tokio = { version = "=1.54.1", features = ["macros", "rt-multi-thread", "net"] }
