[package]
name = "totp"
version = "0.1.0"
edition = "2021"
publish = false

[dependencies]
base32 = "*"
hmac = "*"
sha1 = "*"
rpassword = "*"
arboard = { version = "*", default-features = false }

[dev-dependencies]
totp-lite = "*"
