//! Core of a terminal dashboard that shows recent denial-of-service attacks
//! as arcs on a world map: region focus, panel layout, line projection, the
//! attack feed's request and outcome, and the refresh/render control loop.

pub mod region;
pub mod feed;
pub mod projection;
pub mod layout;
pub mod control;
