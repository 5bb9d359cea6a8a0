[package]
name = "irongate"
version = "0.1.0"
edition = "2021"
publish = false

[dependencies]
actix-web = { version = "=4.18.1", default-features = false }
anyhow = "=1.0.104"
bstr = "=1.13.1"
bytes = "=1.12.1"
data-encoding = "=2.11.1"
foreign-types = "=0.3.2"
futures-core = "=0.3.34"
hex = "=0.4.3"
itertools = "=0.15.0"
libc = "=0.2.191"
mime = "=0.3.17"
openssl = "=0.10.81"
openssl-sys = "=0.9.117"
parking_lot = "=0.12.5"
pin-project-lite = "=0.2.17"
regex = "=1.13.1"
rusqlite = { version = "=0.41.0", features = ["functions"] }
serde = { version = "=1.0.229", features = ["derive"] }
sha2 = "=0.10.9"
strum = { version = "=0.28.0", features = ["derive"] }
thiserror = "=2.0.21"
tokio = { version = "=1.54.1", features = ["net", "io-util", "macros", "rt", "time", "process"] }
tokio-openssl = "=0.6.5"
tokio-util = "=0.7.20"
typed-builder = "=0.23.2"
webpki-root-certs = "=1.0.11"
windows-sys = { version = "=0.61.2", features = ["Win32_Foundation", "Win32_System_SystemInformation", "Win32_System_Threading"] }
