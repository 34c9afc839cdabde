[package]
name = "course_ical"
version = "0.1.0"
edition = "2021"
publish = false

[dependencies]
chrono = "0.4"
chrono-tz = "*"
hyper = { version = "0.14", features = ["client", "http1", "tcp"] }
hyper-tls = "0.5"
ics = "*"
select = "*"
snafu = "*"
timespan = "*"
tokio = { version = "1", features = ["macros", "rt-multi-thread"] }
