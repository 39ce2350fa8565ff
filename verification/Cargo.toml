[package]
name = "minecraft-server-protocol"
version = "0.1.0"
edition = "2021"
publish = false

[dependencies]
serde_json = "1"
mutf8 = "*"
Inflector = "*"
argwerk = "*"
async-std = "1"
thiserror = "1"
displaydoc = "0.2"
