[package]
name = "jonathan_converter"
version = "0.1.0"
edition = "2021"
publish = false

[dependencies]
pcx = "*"
png = "*"
clap = "3"
eyre = "*"
rayon = "*"
