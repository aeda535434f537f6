// A terminal file browser's core: the list cursor and its pages, the focus
// ring of the panes, the directory session, the set of chosen paths, the bulk
// move, copy and delete operations, and the controller that dispatches keys.
// Work outside the process (listing directories, running commands, drawing)
// is handed back to the caller as plain values.

pub mod bulk;
pub mod controller;
pub mod cursor;
pub mod focus;
pub mod info;
pub mod path;
pub mod selection;
pub mod session;
pub mod text;
