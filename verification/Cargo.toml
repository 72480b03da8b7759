[package]
name = "school_auth"
version = "0.1.0"
edition = "2021"
publish = false

[dependencies]
argon2 = "=0.5.3"
chrono = "=0.4.45"
dotenv = "=0.15.0"
jsonwebtoken = "=9.3.1"
rand_core = { version = "=0.6.4", features = ["getrandom"] }
regex = "=1.13.1"
serde_json = "=1.0.151"
uuid = { version = "=1.27.0", features = ["v4"] }
