[package]
name = "garage_operator"
version = "0.1.0"
edition = "2021"
publish = false

[dependencies]
kube_quantity = "=0.9.0"
uuid = { version = "=1.27.0", features = ["v4"] }
k8s-openapi = { version = "=0.28.0", features = ["latest"] }
kube = { version = "=4.2.0", features = ["client", "runtime", "derive"] }
serde = { version = "*", features = ["derive"] }
serde_json = "*"
schemars = "*"
tokio = { version = "*", features = ["macros", "rt-multi-thread"] }
futures = "*"
reqwest = { version = "*", features = ["json"] }
