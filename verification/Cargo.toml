[package]
name = "plotly"
version = "0.1.0"
edition = "2021"
publish = false

[dependencies]
rand = "0.7"
rand_distr = "0.2"

[dev-dependencies]
serde_json = "1"
