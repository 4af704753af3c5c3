[package]
name = "route_links"
version = "0.1.0"
edition = "2021"
publish = false

[dependencies]
urlencoding = "2.1"
