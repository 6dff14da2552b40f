[package]
name = "shadertoy-rs"
version = "0.1.0"
edition = "2021"
publish = false

[dependencies]
anyhow = "=1.0.104"
clap = "=2.34.0"
env_logger = "=0.11.11"
gfx = "=0.18.3"
gfx_gl = "=0.6.1"
glutin = "0.28"
image = { version = "=0.25.10", default-features = false, features = ["jpeg", "png"] }
log = "=0.4.34"
notify = "=4.0.18"
old_school_gfx_glutin_ext = "0.28"
reqwest = { version = "=0.12.28", default-features = false, features = ["blocking", "rustls-tls"] }
serde_json = "=1.0.154"
