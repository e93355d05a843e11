[package]
name = "uhyve"
version = "0.1.0"
edition = "2021"
publish = false

[dependencies]
byte-unit = "=4.0.19"
core_affinity = "=0.8.3"
envmnt = "=0.10.4"
clap = "=2.34.0"
env_logger = "*"
log = "*"
kvm-bindings = "=0.14.1"
kvm-ioctls = "=0.25.0"
nix = { version = "=0.31.3", features = ["mman"] }
tun-tap = "=0.1.4"
vmm-sys-util = "=0.15.0"
