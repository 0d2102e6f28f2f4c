[package]
name = "physics_sandbox"
version = "0.1.0"
edition = "2021"
publish = false

[dependencies]
let-engine = { version = "=0.10.0", default-features = false, features = ["client", "physics", "labels"] }
egui = "=0.24.1"
