//! Shows what is playing, with its lyrics: the logic of a program that polls
//! a music service, notices when the track changes, looks the lyrics up on
//! the web and prints both.
//!
//! The library does no input or output. It is handed what the service
//! answered and what the web gave, and says what that means and what to do
//! next:
//!
//! - [`track`] holds the track, its identity and how it is printed;
//! - [`poller`] turns one answer of the service into a track or into
//!   nothing playing;
//! - [`strategy`] and [`resolver`] find the lyrics along a chain of
//!   strategies, and [`fallback`] proves in which order;
//! - [`tracker`] decides, poll by poll, whether the display has to change.

pub mod fallback;
pub mod page;
pub mod poller;
pub mod resolver;
pub mod strategy;
pub mod text;
pub mod track;
pub mod tracker;
