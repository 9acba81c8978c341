[package]
name = "aoba-client"
version = "0.1.0"
edition = "2021"
publish = false

[dependencies]
dioxus = { version = "=0.7.10", features = ["web", "router"] }
serde = { version = "=1.0.229", features = ["derive"] }
serde_repr = "=0.1.21"
futures-timer = "=3.0.4"
futures-util = "=0.3.34"
anyhow = "=1.0.104"
js-sys = "=0.3.107"
web-sys = { version = "=0.3.107", features = ["Window", "Storage", "Navigator", "Clipboard", "Document", "Element", "Location", "CredentialsContainer", "CredentialCreationOptions", "CredentialRequestOptions", "DomException", "PublicKeyCredentialCreationOptions", "PublicKeyCredentialRequestOptions", "PublicKeyCredentialRpEntity", "PublicKeyCredentialUserEntity", "AttestationConveyancePreference", "UserVerificationRequirement"] }
tonic = { version = "=0.14.9", default-features = false, features = ["codegen"] }
prost = "=0.14.4"
tonic-web-wasm-client = "=0.9.2"
reqwest = { version = "=0.13.5", default-features = false }
