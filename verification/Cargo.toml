[package]
name = "mlua_bridge"
version = "0.1.0"
edition = "2021"
publish = false

[dependencies]
ident_case = "=1.0.1"
darling = "=0.20.11"
syn = { version = "=2.0.119", features = ["full"] }
quote = "=1.0.47"
proc-macro2 = "=1.0.107"
