//! Skeleton tracking shared between host processes.
//!
//! - `skeleton`, `coords`: frames and the host's coordinate convention.
//! - `tracking`, `winsdk_v1`, `winsdk_v2`, `kinect_v1`: what sensor drivers
//!   report and how a backend turns it into frames.
//! - `backend`: the backend interface and the registry of loaded backends.
//! - `record`, `shared`: the shared record and the engine that publishes and
//!   reads it, with writer promotion.
//! - `rekinect`, `api`, `cusercmd`, `hax`: the client module's state and its
//!   scripting-facing decisions.
//! - `rekinector`: the host process as the injector sees it.
pub mod api;
pub mod backend;
pub mod coords;
pub mod cusercmd;
pub mod hax;
pub mod kinect_v1;
pub mod record;
pub mod rekinect;
pub mod rekinector;
pub mod shared;
pub mod skeleton;
pub mod tracking;
pub mod winsdk_v1;
pub mod winsdk_v2;
