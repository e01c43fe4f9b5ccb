//! The numbers that name event kinds, keys and axes on the wire.
//!
//! They are the numbers of the Linux input subsystem, which both the
//! physical device and the virtual device speak.

use vstd::prelude::*;

verus! {

/// Event type of the markers that end a packet of events.
pub const EV_SYN: u16 = 0x00;

/// Event type of key and button presses and releases.
pub const EV_KEY: u16 = 0x01;

/// Event type of relative motion.
pub const EV_REL: u16 = 0x02;

/// Event type of absolute axis samples.
pub const EV_ABS: u16 = 0x03;

/// Relative motion along X.
pub const REL_X: u16 = 0x00;

/// Relative motion along Y.
pub const REL_Y: u16 = 0x01;

/// Primary report of the horizontal stick axis.
pub const ABS_X: u16 = 0x00;

/// Primary report of the vertical stick axis.
pub const ABS_Y: u16 = 0x01;

/// Secondary report of the horizontal stick axis.
pub const ABS_RX: u16 = 0x03;

/// Secondary report of the vertical stick axis.
pub const ABS_RY: u16 = 0x04;

/// Arrow key up.
pub const KEY_UP: u16 = 103;

/// Arrow key left.
pub const KEY_LEFT: u16 = 105;

/// Arrow key right.
pub const KEY_RIGHT: u16 = 106;

/// Arrow key down.
pub const KEY_DOWN: u16 = 108;

/// Left mouse button.
pub const BTN_LEFT: u16 = 0x110;

/// Right mouse button.
pub const BTN_RIGHT: u16 = 0x111;

/// Middle mouse button.
pub const BTN_MIDDLE: u16 = 0x112;

/// South face button.
pub const BTN_SOUTH: u16 = 0x130;

/// East face button.
pub const BTN_EAST: u16 = 0x131;

/// North face button.
pub const BTN_NORTH: u16 = 0x133;

/// West face button.
pub const BTN_WEST: u16 = 0x134;

/// Upper trigger, left.
pub const BTN_TL: u16 = 0x136;

/// Upper trigger, right.
pub const BTN_TR: u16 = 0x137;

/// Lower trigger, left.
pub const BTN_TL2: u16 = 0x138;

/// Lower trigger, right.
pub const BTN_TR2: u16 = 0x139;

/// Click of the left stick.
pub const BTN_THUMBL: u16 = 0x13d;

/// Click of the right stick.
pub const BTN_THUMBR: u16 = 0x13e;

} // verus!
