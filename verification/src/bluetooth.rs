//! Identification constants for the cubes' GATT services.
//!
//! Three hardware generations each expose one primary service and one state
//! (notification) characteristic. The platform Bluetooth stack uses these
//! 128-bit identifiers to find the characteristic to subscribe to; they are
//! data consumed outside this crate, not protocol logic.

use vstd::prelude::*;

verus! {

pub const GAN_GEN2_SERVICE_UUID: u128 = 0x6e400001_b5a3_f393_e0a9_e50e24dc4179;

pub const GAN_GEN2_STATE_CHAR_UUID: u128 = 0x28be4cb6_cd67_11e9_a32f_2a2ae2dbcce4;

pub const GAN_GEN3_SERVICE_UUID: u128 = 0x8653000a_43e6_47b7_9cb0_5fc21d4ae340;

pub const GAN_GEN3_STATE_CHAR_UUID: u128 = 0x8653000b_43e6_47b7_9cb0_5fc21d4ae340;

pub const GAN_GEN4_SERVICE_UUID: u128 = 0x00000010_0000_fff7_fff6_fff5fff4fff0;

pub const GAN_GEN4_STATE_CHAR_UUID: u128 = 0x0000fff6_0000_1000_8000_00805f9b34fb;

} // verus!
