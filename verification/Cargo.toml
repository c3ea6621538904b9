[package]
name = "dxfexports"
version = "0.1.0"
edition = "2021"
publish = false

[dependencies]
dxf = "*"
geo-types = "*"
lyon = "*"
svg = "*"
