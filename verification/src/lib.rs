//! Decoder for the wire protocol of GAN-style Bluetooth smart cubes.
//!
//! A cube streams encrypted notifications over a BLE characteristic. This
//! crate derives the per-device key material, decrypts each notification,
//! and parses the plaintext bitfields into structured move events.

pub mod bits;
pub mod bluetooth;
pub mod crypt;
pub mod event;
pub mod stream;

