[package]
name = "fip_controller"
version = "0.1.0"
edition = "2021"
publish = false

[dependencies]
dotenv = "0.15"
futures = "0.3"
hcloud = "0.13"
k8s-openapi = { version = "0.17", features = ["v1_26"] }
kube = { version = "0.78", features = ["runtime"] }
rand = "0.8"
tokio = { version = "1", features = ["macros", "rt-multi-thread"] }
