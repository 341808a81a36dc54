//! A tabbed terminal dashboard: the tab-selection state machine, the frame
//! that each redraw shows, and the protocol that brackets the render/poll
//! loop with the terminal session.

pub mod frame;
pub mod input;
pub mod laws;
pub mod layout;
pub mod selection;
pub mod session;
pub mod tabs;
