[package]
name = "ledger_client"
version = "0.1.0"
edition = "2021"
publish = false

[dependencies]
hex = "*"
serde_json = "*"
serde = "*"
serde_derive = "*"
form_urlencoded = "*"
minreq = "*"
tungstenite = "*"
ledger-apdu = "*"
ledger-transport-hidapi = "*"
