[package]
name = "web-browser-lsp"
version = "0.1.0"
edition = "2021"
publish = false

[dependencies]
anyhow = "=1.0.104"
async-trait = "=0.1.92"
log = "=0.4.35"
log4rs = "=1.4.0"
lsp-server = "=0.5.2"
lsp-types = { version = "=0.89.2", features = ["proposed"] }
serde = { version = "=1.0.229", features = ["derive"] }
serde_json = "=1.0.154"
structopt = "=0.3.26"
tokio = { version = "=1.54.1", features = ["macros", "rt-multi-thread"] }
