//! A multi-stage tweening engine over whole-number property values.
//!
//! An [`animator::Animator`] plays an ordered list of timed stages on the
//! properties of one entity: a sprite's colour and size, a layout box, a
//! transform and a label. Each stage moves some fields by a delta over its
//! duration; what is shown at any moment is the baseline plus the part of the
//! delta that the stage's progress and easing give.
//!
//! Values and times are whole numbers in units of the caller's choice, so
//! that every step is exact and what the functions do is stated, and proved,
//! in full.

pub mod animator;
pub mod ease;
pub mod label;
pub mod laws;
pub mod property;
pub mod ratio;
pub mod relate;
pub mod timer;
