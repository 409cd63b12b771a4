[package]
name = "jetbrains_projects"
version = "0.1.0"
edition = "2021"
publish = false

[dependencies]
amxml = "*"
chrono = "*"
dirs = "*"
resolve-path = "*"
itertools = "*"
serde = { version = "1", features = ["derive"] }
serde_json = "1"
serde-java-properties = "*"
wax = "*"
globmatch = "*"
rayon = "*"
log = "*"
glib = { version = "*", features = ["log", "log_macros"] }
rofi-mode = "*"
