[package]
name = "kchat-mls"
version = "0.1.0"
edition = "2021"
publish = false

[dependencies]
hpke-rs = { version = "=0.4.0", features = ["hazmat"] }
hpke-rs-crypto = "=0.3.0"
hpke-rs-libcrux = "=0.4.0"
libcrux-aead = "=0.0.4"
libcrux-ed25519 = { version = "=0.0.4", features = ["rand"] }
libcrux-hkdf = "=0.0.4"
libcrux-hmac = "=0.0.4"
libcrux-sha2 = "=0.0.4"
libcrux-traits = "=0.0.4"
rand = "=0.9.5"
rand_chacha = "=0.9.0"
tls_codec = { version = "=0.4.2", features = ["mls"] }
serde = { version = "=1.0.229", features = ["derive"] }
thiserror = "=2.0.21"
termion = "=4.0.6"
pretty_env_logger = "=0.5.0"
wasm-bindgen = "=0.2.130"
js-sys = "=0.3.107"
