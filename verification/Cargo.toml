[package]
name = "sd_reader"
version = "0.1.0"
edition = "2021"
publish = false

[dependencies]
anyhow = "1"
embedded-sdmmc = "0.7.0"
esp-idf-hal = "*"
esp-idf-svc = "*"
log = "0.4"
