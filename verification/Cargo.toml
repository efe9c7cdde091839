[package]
name = "ability"
version = "0.1.0"
edition = "2021"
publish = false

[dependencies]
uuid = { version = "*", features = ["v4"] }
serde = { version = "*", features = ["derive"] }
log = "*"
crossbeam-channel = "*"
napi-ohos = "*"
napi-derive-ohos = "*"
ohos-arkui-binding = "*"
ohos-ime-binding = "*"
ohos-resource-manager-binding = "*"
ohos-web-binding = "*"
ohos-xcomponent-binding = "*"
