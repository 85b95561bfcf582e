//! Verified model of a small GPU rendering scaffold: surface negotiation and
//! resizing, the acquire / draw / submit frame protocol, and the fixed
//! full-screen pipeline that each frame draws with.
pub mod surface;
pub mod frame;
pub mod pipeline;
pub mod state;
