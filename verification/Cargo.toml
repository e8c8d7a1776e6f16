[package]
name = "isucari"
version = "0.1.0"
edition = "2021"
publish = false

[dependencies]
actix-files = "=0.6.10"
actix-session = "=0.5.0"
actix-web = { version = "=4.18.1", default-features = false, features = ["macros", "cookies"] }
anyhow = "1"
# Not called: it turns on the default features of syn 1, without which the
# macros of sqlx 0.5 do not compile.
async-recursion = "=0.3.2"
chrono = "=0.4.45"
serde = { version = "1", features = ["derive"] }
sqlx = { version = "=0.5.13", features = ["runtime-actix-rustls", "mysql", "chrono", "time"] }
url = "=2.5.8"
