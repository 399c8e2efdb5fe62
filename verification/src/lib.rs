//! Verified core of a spreadsheet-to-event-guide synchronizer.
//!
//! The library models the desired and remote state of an event guide
//! (sessions, presenters, schedule tracks and the links between sessions
//! and presenters), computes minimal field-level patches, reconciles
//! desired against remote collections by correlation key, and drives the
//! whole run through a linear pipeline state machine. All I/O (spreadsheet
//! download and decoding, HTTP calls against the remote platform) lives
//! outside this crate and hands the core plain values.

pub mod calendar;
pub mod config;
pub mod guidebook;
pub mod nasup_to_guidebook;
pub mod parse_nasup;
pub mod reconcile_guidebook;
pub mod reconcile_guidebook_locations;
pub mod reconcile_guidebook_presenters;
pub mod reconcile_guidebook_strands;
pub mod sheet;
pub mod state;
pub mod synchronize_links;
pub mod synth_nasup;
pub mod text;
