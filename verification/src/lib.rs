//! Test-impact analysis: decides from a recorded coverage footprint and the
//! current state of the source tree whether a test result is still valid.

pub mod advanced_arithmetic;
pub mod analysis;
pub mod analysis_data;
pub mod cli_core;
pub mod compile_index_and_clean_config;
pub mod difftest;
pub mod group_difftest;
pub mod group_name;
pub mod groups;
pub mod index_compare;
pub mod index_data;
pub mod ops;
pub mod paths;
pub mod rustc_wrapper_impl;
pub mod test_rerunner_core;
pub mod text;
