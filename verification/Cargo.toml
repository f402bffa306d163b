[package]
name = "weather_tabs"
version = "0.1.0"
edition = "2021"
publish = false

[dependencies]
crossterm = "*"
ratatui = "*"
openweathermap = "*"
