[package]
name = "axum_sea_orm_tx"
version = "0.1.0"
edition = "2021"
publish = false

[dependencies]
async-trait = "0.1"
axum-core = "0.3"
bytes = "1"
futures-core = "0.3"
http = "0.2"
http-body = "0.4"
sea-orm = "0.12"
thiserror = "1"
tower-layer = "0.3"
tower-service = "0.3"
