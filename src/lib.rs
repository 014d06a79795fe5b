//! Station-side alert display: wall-clock geometry, the display loop's
//! lifecycle, and the domain values shown on the station screen.
pub mod clock;
pub mod time;
pub mod timestamped;
pub mod lifecycle;
pub mod display;
pub mod callsign;
pub mod contact;
pub mod text;
pub mod staffing;
