//! Core of an interactive editor for layered 2D paperdoll documents.
//!
//! A document is a set of dolls (base canvases) carrying slots: rectangular
//! placement regions that display interchangeable image fragments.  The heart
//! of this crate is the per-frame slot-geometry pipeline: pointer drags on
//! resize handles, move handles and anchor handles are turned into updated
//! slot geometry, with multi-point alignment snapping against reference
//! rectangles, aspect-ratio locking, axis-restricted dragging and
//! synchronized movement of multi-position slots.
//!
//! All geometry is integer-valued; the zoom scale is an exact rational.
//! Rendering, persistence and widget chrome are left to the host application.

pub mod basis;
pub mod canvas;
pub mod control;
pub mod dialog;
pub mod example;
pub mod fixed_vec;
pub mod geom;
pub mod reorder;
pub mod slot;
pub mod snap;
pub mod storage;
