[package]
name = "branch_triage"
version = "0.1.0"
edition = "2021"
publish = false

[dependencies]
git2 = "*"
chrono = "*"
clap = "*"
crossterm = "*"
termcolor = "*"

[dev-dependencies]
tempfile = "*"
