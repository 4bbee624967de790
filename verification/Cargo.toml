[package]
name = "project_validate"
version = "0.1.0"
edition = "2021"
publish = false

[dependencies]
hdk = "=0.0.103"
hdk_crud = "=0.0.103"
rmp = "=0.8.10"
