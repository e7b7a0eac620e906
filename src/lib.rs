//! Driver for the MIIM (MDIO/MDC) management interface of an Ethernet MAC.
//!
//! `fields` lays out the control word, `registers` holds the MAC's management registers
//! and the PHY registers behind them, `miim` runs read and write transactions on them,
//! `pins` names the roles a pin can play on the bus, and `mac` holds the MAC handles: one
//! that borrows its pins for the length of a session and one that owns them.
pub mod fields;
pub mod registers;
pub mod miim;
pub mod pins;
pub mod mac;
