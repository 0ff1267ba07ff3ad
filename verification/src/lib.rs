//! The refresh controller of a daily-wallpaper client, written without I/O.
//!
//! The library decides; the program around it acts. Every operation that needs
//! the network, the disk, a thread or the desktop is described here as a value
//! (a request, an effect, a command) that the caller carries out, handing the
//! answer back. What the library decides on each answer is stated in contracts
//! and proved.

pub mod applicator;
pub mod artifact;
pub mod controller;
pub mod cycle;
pub mod device;
pub mod feed;
pub mod menu;
pub mod mode;
pub mod poller;
pub mod system;
pub mod world;
