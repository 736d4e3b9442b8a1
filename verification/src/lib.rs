//! Decision logic of an adaptive connection optimizer: pattern learning,
//! cadence scheduling and stealth posture, over fixed-point integers.

pub mod advisor;
pub mod analysis;
pub mod app_state;
pub mod burst;
pub mod clock;
pub mod config;
pub mod decision;
pub mod engine;
pub mod entropy;
pub mod error;
pub mod fixed;
pub mod intelligence;
pub mod json;
pub mod keeper;
pub mod learner;
pub mod migrations;
pub mod mimicry;
pub mod models;
pub mod monitor;
pub mod optimizer;
pub mod order;
pub mod progress;
pub mod samples;
pub mod scoring;
pub mod servers;
pub mod speedtest;
pub mod status;
pub mod stealth;
pub mod stealth_engine;
pub mod tables;
pub mod text;
pub mod throttling;
pub mod tray;
