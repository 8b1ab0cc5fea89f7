[package]
name = "recipe_pipeline"
version = "0.1.0"
edition = "2021"
publish = false

[dependencies]
anyhow = "=1.0.104"
async-trait = "=0.1.92"
axum = "=0.7.9"
axum-extra = "=0.9.6"
axum-template = { version = "=2.4.0", features = ["minijinja", "minijinja-autoreload"] }
chrono = "=0.4.45"
clap = { version = "=4.6.7", features = ["derive", "env"] }
fang = { version = "=0.10.4", default-features = false, features = ["asynk", "derive-error"] }
minijinja = { version = "=2.24.0", features = ["loader"] }
minijinja-autoreload = "=2.24.0"
notify = "=6.1.1"
once_cell = "=1.21.4"
ordered-float = { version = "=4.6.0", features = ["serde"] }
regex = "=1.13.1"
reqwest = { version = "=0.11.27", default-features = false, features = ["json", "multipart", "stream", "rustls-tls"] }
sea-orm = { version = "=0.12.15", default-features = false, features = ["sqlx-postgres", "runtime-tokio-rustls", "macros", "with-json", "with-chrono"] }
serde = { version = "=1.0.229", features = ["derive"] }
serde_json = "=1.0.154"
sqlx = { version = "=0.7.4", default-features = false, features = ["postgres", "runtime-tokio-rustls", "migrate"] }
tempfile = "=3.27.0"
thiserror = "=1.0.69"
tokio = { version = "=1.54.1", features = ["full"] }
tokio-util = { version = "=0.7.20", features = ["codec"] }
tower-http = { version = "=0.5.2", features = ["fs"] }
tower-livereload = "=0.9.6"
tracing = "=0.1.44"
tracing-subscriber = "=0.3.23"
typetag = "=0.2.23"
