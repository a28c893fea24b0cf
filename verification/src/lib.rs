//! Turtle graphics: the bookkeeping of a drawing cursor, the buffer of line
//! segments it leaves behind, and the scheduler that replays a list of
//! commands at a fixed cadence.
//!
//! Every number a turtle works with is a single-precision value. This crate
//! stores and forwards such values by their bit patterns ([`scalar::Scalar`])
//! and never computes with them. Where a new position or heading has to be
//! computed, the library says which motion is asked for
//! ([`turtle::Turtle::exec_command`]), the host does the arithmetic, and the
//! library takes over the outcome ([`turtle::Turtle::finish_motion`]): it
//! decides whether a segment is drawn and which one. An outcome that is no
//! finite point, as arithmetic on a NaN or with a heading of length 0 gives
//! it, is ignored, so that a turtle made from sound numbers stays sound.
//!
//! A screen is a plain value. Turtles do not hold on to one: each call that
//! may draw or clear is given the screen to work on, so that a host can keep
//! one screen for many turtles behind whatever lock it uses.

pub mod animator;
mod clock;
pub mod command;
pub mod counter;
pub mod interval;
pub mod scalar;
pub mod screen;
pub mod sierpinski;
pub mod transform;
pub mod turtle;
