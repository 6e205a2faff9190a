[package]
name = "pcap_replay"
version = "0.1.0"
edition = "2021"
publish = false

[dependencies]
getopts = "*"
pcap-parser = "*"
spin_sleep = "*"
