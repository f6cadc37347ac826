[package]
name = "arcamclient"
version = "0.1.0"
edition = "2021"
publish = false

[dependencies]
async-std = "1"
env_logger = "0.7"
futures = "0.3"
gio = "0.8"
glib = "0.9"
gtk = "0.8"
lazy_static = "1"
log = "0.4"
