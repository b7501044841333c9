//! Mirrors what a media player is playing onto the three-line display of an
//! X52 flight stick.
//!
//! The library holds the rules and leaves every effect to its caller:
//!
//! - [`spotify`] turns the titles of the player's window into status updates
//!   ([`spotify::Spotify`]), parses tracks out of titles
//!   ([`spotify::track`]), remembers the player's window and forgets it when it
//!   is lost ([`spotify::window`]), and finds it by a depth-first search of the
//!   window tree ([`spotify::search`]).
//! - [`x52`] scrolls texts that are wider than the display
//!   ([`x52::line`]) and manages the driver session, with one fresh session
//!   and one retry when the device is lost ([`x52::X52`]).
//!
//! Where the library needs something from outside (a window property, a driver
//! call), it says so in its result and takes the answer as an argument of the
//! next call. The caller runs the loop.

pub mod spotify;
pub mod x52;
