//! Navigation and cross-thread UI update core for a sidebar-navigable,
//! single-window immediate-mode application.
//!
//! The crate models the pieces that carry the application's correctness
//! burden: the message inbox that ferries events onto the UI thread, the
//! router that resolves path strings to content, the shared state threaded
//! through every frame, the sidebar's click-to-message logic, and the
//! per-frame application loop. Window chrome, fonts, and the actual pixel
//! rendering are left to the host shell around this crate.

pub mod app;
pub mod example;
pub mod inbox;
pub mod message;
pub mod params;
pub mod path;
pub mod route;
pub mod router;
pub mod routes;
pub mod shared_state;
pub mod sidebar;
