//! Navigation and synchronization core of a desktop file manager: a back/forward
//! history, the reconciliation of displayed paths, a confirmation gate in front of
//! deletions, and the pipeline that turns requests into filesystem work and status
//! text.
pub mod crumbs;
pub mod gate;
pub mod listing;
pub mod navigation;
pub mod paths;
pub mod pipeline;
pub mod sidebar;
pub mod status;
pub mod sync;
pub mod text;
