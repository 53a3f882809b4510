[package]
name = "orbterm"
version = "0.1.0"
edition = "2021"
publish = false

[dependencies]
failure = "0.1"
libc = "0.2"
orbclient = "0.3"
orbfont = "0.1"
ransid = "0.4"
serde = { version = "1", features = ["derive"] }
toml = "0.5"
xdg = "2"
