//! The core of a three-pane, keyboard-driven directory browser in the
//! manner of Miller columns: the left pane shows the parent directory, the
//! center pane the current directory with a movable selection, and the
//! right pane a preview of the selected entry.
//!
//! The crate holds the directory snapshots, the ring of three panes and its
//! rotation, the traversal engine and the browse and command input modes.
//! It does no input or output. A front end owns the terminal and the
//! filesystem and drives a [`session::Session`]:
//!
//! 1. it hands over a key press, or the listing of a directory it was asked
//!    to read, and gets a [`session::Reaction`] back;
//! 2. it carries out the drawing operations of the reaction, in order;
//! 3. it does what the reaction says comes next: wait for a key, read a
//!    directory and hand its listing back, or restore the terminal and end
//!    the process.
//!
//! Every type has a mathematical model, its view, and the contracts of the
//! functions are stated over those models. The module [`laws`] holds what
//! follows for every state and every input.

pub mod entry;
pub mod listing;
pub mod path;
pub mod snapshot;
pub mod draw;
pub mod pane;
pub mod ring;
pub mod navigation;
pub mod keys;
pub mod input;
pub mod session;
pub mod laws;
