[package]
name = "mia_agent"
version = "0.2.0"
edition = "2021"
publish = false

[dependencies]
serde_json = "1"
which = "*"
shellexpand = "*"
tokio = { version = "1", features = ["rt-multi-thread", "macros", "sync", "time"] }
tokio-util = "*"
reqwest = { version = "0.12", default-features = false, features = ["json", "rustls-tls"] }
anyhow = "1"
log = "0.4"
env_logger = { version = "*", default-features = false }
clap = { version = "4", features = ["derive"] }
chrono = { version = "0.4", default-features = false, features = ["clock", "serde", "std"] }
uuid = { version = "1", features = ["v7"] }
serde = { version = "1", features = ["derive"] }
toml = "*"
dotenvy = "*"
config = { version = "0.15", default-features = false, features = ["toml"] }
ratatui = { version = "*", default-features = false, features = ["crossterm"] }
crossterm = "*"
ratatui-textarea = "*"
ansi-to-tui = "*"
termimad = "*"
textwrap = "*"
syntect = { version = "5", default-features = false, features = ["default-fancy"] }
tabled = { version = "*", default-features = false, features = ["std"] }
rust_decimal = { version = "*", default-features = false, features = ["std"] }
rand = "0.9"
bytesize = "*"
unix_mode = "*"
uzers = "*"
os_info = { version = "*", default-features = false }
