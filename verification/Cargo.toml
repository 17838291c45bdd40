[package]
name = "sstm_checkin"
version = "0.1.0"
edition = "2021"
publish = false

[dependencies]
chrono = "0.4"
dotenv = "0.15"
thirtyfour = "*"
tokio = { version = "1", features = ["macros", "rt-multi-thread", "time"] }
