[package]
name = "lua_reflect"
version = "0.1.0"
edition = "2021"
publish = false

[dependencies]
bevy = { version = "=0.7.0", default-features = false }
mlua = { version = "=0.8.10", features = ["lua54", "vendored"] }
paste = "=1.0.15"
tracing = "=0.1.37"
tracing-attributes = "=0.1.23"
