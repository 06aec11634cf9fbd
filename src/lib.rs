//! A live screen-region overlay core: cropping captured monitor frames to the
//! overlay window's rectangle, handing them across threads through a one-slot
//! latest-wins channel, tracking the window's geometry, switching between the
//! alignment and share modes, and choosing what each render tick presents.

pub mod frame;
pub mod crop;
pub mod channel;
pub mod link;
pub mod tracker;
pub mod mode;
pub mod compositor;
pub mod pipeline;
pub mod render;
