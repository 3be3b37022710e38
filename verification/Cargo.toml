[package]
name = "game_the_curse_of_the_headless_goose"
version = "0.1.0"
edition = "2021"
publish = false

[dependencies]
anyhow = "=1.0.104"
arrayvec = { version = "=0.7.8", default-features = false }
ascon = "=0.4.0"
bitflags = "=2.13.2"
defmt-rtt = "=1.3.1"
eeprom24x = "=0.7.2"
embedded-graphics = "=0.8.2"
embedded-graphics-colorcast = "=0.1.1"
embedded-hal = "=1.0.0"
embedded-hal-bus = "=0.3.0"
embedded-savegame = { version = "=0.3.0", features = ["eeprom24x", "mock"] }
env_logger = "=0.11.11"
fastrand = "=2.5.0"
itoa = "=1.0.18"
log = "=0.4.35"
mipidsi = "=0.10.0"
rand_core = "=0.6.4"
rp2040-panic-usb-boot = "=0.6.0"
waveshare-rp2040-zero = "=0.8.0"
