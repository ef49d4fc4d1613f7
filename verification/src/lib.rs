//! The state of the mouse and the keyboard at the moment of a query.
//!
//! Two kinds of input have to be brought together. Buttons, keys and the
//! pointer can be asked for their state at any time. The scroll wheel cannot:
//! it only reports movement, as events that a hook receives. This library
//! holds the rules between the two:
//!
//! - [`scroll`]: the counters that gather wheel events until a query drains
//!   them, and the laws of adding and draining;
//! - [`hook`]: the life of the one hook of a process, started at most once;
//! - [`keymap`]: the logical keys that a query reports;
//! - [`mouse_state`]: the snapshot that a pointer query returns;
//! - [`device_state`]: making a device state and answering queries, with the
//!   codes, messages and tables of each platform in a module of its own.
//!
//! Nothing here touches the system. The caller installs the hook, reads the
//! pointer, the buttons and the keys, and hands over what it read; every
//! function says in its contract what it makes of that.

pub mod device_state;
pub mod hook;
pub mod keymap;
pub mod mouse_state;
pub mod scroll;
