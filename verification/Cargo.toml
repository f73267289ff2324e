[package]
name = "chess_uci"
version = "0.1.0"
edition = "2021"
publish = false

[dependencies]
shakmaty = "=0.29.4"
rubot = "=0.3.0"
vampirc-uci = "=0.11.1"
