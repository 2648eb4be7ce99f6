[package]
name = "meal_planner"
version = "0.1.0"
edition = "2021"
publish = false

[dependencies]
microlp = "=0.2.11"
