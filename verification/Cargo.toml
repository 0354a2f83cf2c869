[package]
name = "stock_predictor"
version = "0.1.0"
edition = "2021"
publish = false

[dependencies]
actix-web = "=4.15.0"
dotenv = "=0.15.0"
env_logger = "*"
linfa = "=0.8.1"
linfa-linear = "=0.8.1"
log = "*"
ndarray = "=0.16.1"
serde = { version = "*", features = ["derive"] }
time = "=0.3.55"
yahoo_finance_api = "=5.0.0"
