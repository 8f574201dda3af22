[package]
name = "ld19codec"
version = "0.1.0"
edition = "2021"
publish = false

[dependencies]
byteorder = "1"
tokio-util = { version = "0.7", features = ["codec"] }
tokio = { version = "1", features = ["rt-multi-thread", "macros", "sync", "io-util"] }
tokio-serial = "5.4"
futures = "0.3"
eframe = { version = "0.29", default-features = false, features = ["default_fonts", "glow", "x11"] }
egui_plot = "0.29"
