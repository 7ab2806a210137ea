[package]
name = "oidc_login"
version = "0.1.0"
edition = "2021"
publish = false

[dependencies]
alcoholic_jwt = "=10039.0.0"
base64 = "=0.23.1"
serde_json = "=1.0.154"
serde = { version = "=1.0.229", features = ["derive"] }
reqwest = { version = "=0.12.28", default-features = false }
actix-web = { version = "=4.18.1", default-features = false, features = ["macros", "cookies"] }
config = { version = "=0.14.1", default-features = false, features = ["json"] }

[dev-dependencies]
openssl = "=0.10.81"
