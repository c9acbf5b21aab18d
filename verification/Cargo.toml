[package]
name = "ok_face_mixer"
version = "0.1.0"
edition = "2021"
publish = false

[dependencies]
image = { version = "0.25", default-features = false, features = ["png", "gif"] }
rand = "0.9"
actix-web = { version = "4", default-features = false, features = ["macros"] }
env_logger = "0.11"
log = "0.4"
serde = { version = "1", features = ["derive"] }
