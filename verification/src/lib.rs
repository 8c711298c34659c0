//! A verified core for a floating-element positioning engine.
//!
//! The crate attaches a detachable panel (tooltip, dropdown, popover) to an
//! anchor element and keeps it placed as the page scrolls or resizes:
//!
//! - [`placement`]: the twelve symbolic placements and their projections;
//! - [`geometry`]: the pure placement computation with overflow fallback;
//! - [`scroll_chain`]: discovery of the scrollable ancestors of an anchor;
//! - [`listener`]: the lifecycle of scroll and resize subscriptions;
//! - [`portal`]: the mount-once, toggle-presence portal adapter;
//! - [`sync`]: the synchronization state machine that drives the above;
//! - [`signal_watch`]: the watchable cells the controller subscribes to;
//! - [`theme`]: the color palettes the themed panels draw from.
//!
//! The view renderer and the platform event system stay outside: the library
//! takes rectangles, node indices and event tokens as plain values and hands
//! decisions back, so every rule here is stated and checked.

pub mod geometry;
pub mod listener;
pub mod placement;
pub mod portal;
pub mod scroll_chain;
pub mod signal_watch;
pub mod sync;
pub mod theme;

pub use geometry::FollowerPlacementOffset;
pub use geometry::FollowerWidth;
pub use geometry::Rect;
pub use placement::FollowerPlacement;
pub use placement::PlacementAlignment;
pub use placement::PlacementEdge;
