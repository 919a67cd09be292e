[package]
name = "agent_orchestration"
version = "0.1.0"
edition = "2021"
publish = false

[dependencies]
async-channel = "2"
dirs = "*"
futures = "0.3"
log = "0.4"
pathfinder_color = "*"
