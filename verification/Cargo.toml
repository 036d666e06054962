[package]
name = "vecbit"
version = "0.1.0"
edition = "2021"
publish = false

[dependencies]
actix = "=0.13.5"
actix-files = "=0.6.10"
actix-session = { version = "=0.10.1", features = ["cookie-session"] }
actix-web = { version = "=4.18.1", default-features = false, features = ["macros", "cookies", "secure-cookies"] }
aes-gcm = "=0.10.3"
argon2 = "=0.5.3"
base64 = "=0.22.1"
bitvec = "=1.1.1"
dotenvy = "=0.15.7"
env_logger = "=0.11.11"
log = "=0.4.35"
mail-builder = "=0.3.2"
mail-send = { version = "=0.4.9", default-features = false, features = ["builder"] }
r2d2 = "=0.8.10"
r2d2_sqlite = "=0.24.0"
rand = "=0.8.8"
rusqlite = { version = "=0.31.0", features = ["bundled"] }
serde = { version = "=1.0.229", features = ["derive"] }
serde_json = "=1.0.154"
tera = "=1.20.1"
thiserror = "=1.0.69"
time = { version = "=0.3.55", features = ["serde"] }
