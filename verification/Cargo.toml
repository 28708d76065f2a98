[package]
name = "aliasable"
version = "0.1.3"
edition = "2021"
publish = false

[dependencies]
aliasable_deref_trait = "0.2"
stable_deref_trait = "1.2"
unsize = "1.1"
