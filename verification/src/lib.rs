//! A VNC client for e-ink readers: the layout and the event answers of its settings
//! screen, the touch, swipe and exit decisions of a session, the placement of the
//! remote screen on the device's, and the bookkeeping of the regions of the screen
//! that wait for a refresh.
pub mod client;
pub mod color;
pub mod dirty;
pub mod event_handling;
pub mod geom;
pub mod gesture;
pub mod input;
pub mod rfb;
pub mod scaling;
pub mod session;
pub mod settings;
pub mod text;
pub mod unit;
pub mod view;
