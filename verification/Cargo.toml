[package]
name = "remote_desk"
version = "0.1.0"
edition = "2021"
publish = false

[dependencies]
rand = "=0.8.8"
sha2 = "=0.10.9"
argon2 = "=0.5.3"
image = "=0.24.9"
zstd = "=0.12.4"
uuid = { version = "=1.27.0", features = ["v4"] }
arboard = "3"
mdns-sd = "=0.10.5"
quinn = "=0.10.2"
rustls = { version = "=0.21.12", features = ["dangerous_configuration"] }
rustls-pemfile = "1"
rcgen = "=0.11.3"
pem = "3"
time = "0.3"
tokio = { version = "1", features = ["rt-multi-thread", "sync", "time", "macros"] }
toml = "0.8"
serde = { version = "1", features = ["derive"] }
bincode = "1"
bytes = "1"
directories = "=5.0.1"
hostname = "0.3"
tracing = "0.1"
tracing-subscriber = { version = "0.3", features = ["env-filter", "fmt"] }
scrap = "0.5"
rdev = "0.5"
