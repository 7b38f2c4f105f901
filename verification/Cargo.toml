[package]
name = "price_and_swap_bot"
version = "0.1.0"
edition = "2021"
publish = false

[dependencies]
dotenv = "0.15"
ethers = { version = "2.0", default-features = false, features = ["rustls"] }
k256 = "0.13"
tokio = { version = "1", features = ["macros", "rt-multi-thread"] }
