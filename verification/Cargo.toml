[package]
name = "fsm_core"
version = "0.1.0"
edition = "2021"
publish = false

[dependencies]
ratatui = "=0.30.2"
crossterm = "=0.29.0"
serde_json = "=1.0.154"
simd-json = "=0.19.0"
memchr = "=2.8.3"
itoa = "=1.0.18"
anyhow = "=1.0.104"
csv = "=1.4.0"
ahash = "0.8"
