[package]
name = "article_date_extractor"
version = "0.1.0"
edition = "2021"
publish = false

[dependencies]
chrono = "0.4"
regex = "1"
select = "*"
serde_json = "1"
