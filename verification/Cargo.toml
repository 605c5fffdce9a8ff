[package]
name = "lua_bridge"
version = "0.1.0"
edition = "2021"
publish = false

[dependencies]
luajit2-sys = "*"
proc-macro2 = "1"
quote = "1"
syn = "*"
venial = "0.5"
