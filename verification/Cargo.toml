[package]
name = "activity_analyzer"
version = "0.1.0"
edition = "2021"
publish = false

[dependencies]
xmlwriter = "*"
chrono = "*"
gpx = "*"
tcx = "*"
fit_file = "*"
time = "*"
serde = { version = "*", features = ["derive"] }
serde_json = "*"
serde-xml-rs = "*"
