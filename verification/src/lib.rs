//! The decisions behind an operator console.
pub mod access;
pub mod activity;
pub mod audit;
pub mod calendar;
pub mod catalogue;
pub mod component;
pub mod danger;
pub mod decisions;
pub mod duration;
pub mod entity;
pub mod failures;
pub mod flags;
pub mod foreign;
pub mod health;
pub mod inspector;
pub mod keys;
pub mod live;
pub mod merge;
pub mod merge_inspect;
pub mod merges;
pub mod nav;
pub mod notice;
pub mod overview;
pub mod politeness;
pub mod privacy;
pub mod provider;
pub mod purge;
pub mod query;
pub mod recommendations;
pub mod register;
pub mod rows;
pub mod runs;
pub mod sample;
pub mod scan_panel;
pub mod solver;
pub mod stages;
pub mod stats;
pub mod text;
pub mod window;
pub mod wording;
