[package]
name = "api_test"
version = "0.1.0"
edition = "2021"
publish = false

[dependencies]
color-eyre = "=0.6.5"
colored = "=3.1.1"
demostf-client = "=0.5.1"
dotenv = "=0.15.0"
sqlx = { version = "=0.9.0", default-features = false, features = ["postgres", "runtime-tokio"] }
tf-demo-parser = "=0.7.1"
time = "=0.3.55"
tokio = { version = "=1.54.1", features = ["macros", "rt-multi-thread", "time"] }
