//! Input translation and generic-tracker bookkeeping for a legacy VR input
//! layer running on an action-based XR runtime.
pub mod profile;
pub mod vive_tracker;
pub mod xdev;
pub mod enumeration;
