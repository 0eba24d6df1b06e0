[package]
name = "zed_orm_core"
version = "0.1.0"
edition = "2021"
publish = false

[dependencies]
sea-orm = { version = "1", default-features = false, features = ["sqlx-postgres", "runtime-tokio-rustls"] }
diesel = { version = "2", default-features = false, features = ["postgres", "r2d2"] }
tokio = { version = "1", features = ["sync", "time", "rt"] }
