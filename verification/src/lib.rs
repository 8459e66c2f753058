//! A simulated multi-sensor monitoring node: a sampling scheduler, a bounded
//! history of readings, statistics over that history, and threshold alerts.
//!
//! All measured values are fixed-point numbers with two decimal places, held
//! as signed integers that count hundredths of the unit: `2550` is `25.50`.
//! All points in time are unsigned integers that count milliseconds on a
//! clock of the caller's choosing.

pub mod alerts;
pub mod config;
pub mod decimal;
pub mod display;
pub mod emission;
pub mod kind;
pub mod logger;
pub mod menu;
pub mod run;
pub mod scheduler;
pub mod sensor;
pub mod stats;
pub mod timeline;
pub mod window;
