[package]
name = "trader"
version = "0.1.0"
edition = "2021"
publish = false

[dependencies]
flate2 = "=1.1.10"
validator = "=0.12.0"
glob = "=0.3.4"
walkdir = "=2.5.0"
quote = "=1.0.47"
zmq = "=0.9.2"
rlua = "=0.17.1"
ta = "=0.5.0"
futures = "=0.1.31"
syn = "1"
