[package]
name = "nss_docker_ng"
version = "0.1.0"
edition = "2021"
publish = false

[dependencies]
debug_print = "=1.0.0"
docker-api = "=0.14.0"
libc = "*"
libnss = "=0.9.0"
tokio = { version = "=1.53.2", features = ["rt"] }
