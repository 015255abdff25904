//! Verified core of a desktop messaging application's tray shell.
//!
//! The shell keeps a system-tray icon whose context menu lists recent
//! contacts, hides the main window instead of closing it, and relays tray
//! selections to the UI layer as named events.  This crate holds the part of
//! that behaviour that is pure logic: how the menu is built from a contact
//! list, how a menu selection is routed to window commands and outward
//! events, how a close request is answered, and where the window is first
//! placed on each host.  The host-framework wiring around it performs the
//! commands this crate decides on.

pub mod menu;
pub mod placement;
pub mod router;
pub mod window;
