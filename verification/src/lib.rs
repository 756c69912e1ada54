//! A network-synchronised wall clock for a small display.
//!
//! The clock asks a time server for the time once, remembers the answer
//! together with the reading of a free-running millisecond counter, and from
//! then on derives the current wall-clock time from the counter alone.
//!
//! * [`codec`] builds the request and decodes the server's reply.
//! * [`engine`] decides when to wait, when to turn to the fallback server and
//!   when acquisition has succeeded or must stop.
//! * [`clock`] projects the captured reference onto a later counter reading.
//! * [`calendar`] turns seconds since the epoch into a civil date and time.
//! * [`render`] formats the civil time and paces the display.

pub mod clock;
pub mod codec;
pub mod engine;
pub mod calendar;
pub mod render;
