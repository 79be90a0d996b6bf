[package]
name = "elden_boc"
version = "0.1.0"
edition = "2021"
publish = false

[dependencies]
reqwest = { version = "0.11", features = ["blocking"] }
soup = "0.5"
xdg = "2"
