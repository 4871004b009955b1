[package]
name = "sws_modules"
version = "0.1.0"
edition = "2021"
publish = false

[dependencies]
dlopen = "=0.1.8"
dlopen_derive = "=0.1.4"
glob = "=0.3.4"
http = "=0.2.12"
hyper = "=0.14.32"
