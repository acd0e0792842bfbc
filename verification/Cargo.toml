[package]
name = "portal_lib"
version = "0.1.0"
edition = "2021"
publish = false

[dependencies]
chacha20poly1305 = "*"
hex = "*"
hkdf = "*"
libc = "*"
mio = { version = "*", features = ["net", "os-poll"] }
os_pipe = "*"
rand = "*"
sha2 = "*"
spake2 = "*"
threadpool = "*"
