[package]
name = "mk_sql"
version = "0.1.0"
edition = "2021"
publish = false

[dependencies]
anyhow = "=1.0.104"
log = "=0.4.34"
tiberius = { version = "=0.12.3", default-features = false, features = ["tds73", "sql-browser-tokio", "winauth", "rustls"] }
tokio = { version = "=1.54.1", features = ["net", "time", "rt"] }
tokio-util = { version = "=0.7.20", features = ["compat"] }
