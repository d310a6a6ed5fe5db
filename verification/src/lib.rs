//! Analytics core of a personal life tracker: habit streaks and completion
//! figures, the yearly journal scaffold, and the cached cross-domain dashboard.

pub mod calendar;
pub mod config;
pub mod dashboard;
pub mod diary;
pub mod error;
pub mod fraction;
pub mod habits;
pub mod ids;
pub mod records;
pub mod text;
pub mod validation;
