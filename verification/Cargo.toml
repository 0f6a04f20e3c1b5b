[package]
name = "seir_service"
version = "0.1.0"
edition = "2021"
publish = false

[dependencies]
actix = "*"
actix-files = "*"
actix-web = "*"
actix-web-actors = "*"
ode_solvers = "*"
serde = { version = "*", features = ["derive"] }
serde_json = "*"
