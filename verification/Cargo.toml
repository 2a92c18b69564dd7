[package]
name = "cell_simulation"
version = "0.1.0"
edition = "2021"
publish = false

[dependencies]
rand = "0.8"
serde = { version = "1", features = ["derive"] }
macroquad = "0.3"
egui = "0.21"
egui-macroquad = "0.15"
