[package]
name = "foxtrot"
version = "0.1.0"
edition = "2021"
publish = false

[dependencies]
bitflags = "=1.3.2"
bytemuck = { version = "=1.25.2", features = ["derive"] }
ggrs = "=0.10.2"
clap = { version = "=3.2.25", features = ["derive"] }
