//! Library behind a tray-bar utility that shows the astronomy picture of the
//! day as the desktop wallpaper. It holds the verified core: the date cursor
//! that the menu mutates, the fetch walk that steps back one day on a
//! not-found response, the menu description, and the event-loop transitions.
//! Network, clipboard and tray-widget work stays outside, driven by the
//! actions and effects these functions return.

pub mod caps;
pub mod date;
pub mod events;
pub mod fetch;
pub mod menu;
pub mod state;
pub mod text;

use vstd::prelude::*;

verus! {

} // verus!
