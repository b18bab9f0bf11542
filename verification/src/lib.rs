//! Monte Carlo estimation of pi, with a client-held preference for the
//! number of trials.
//!
//! The library holds the three parts that carry the logic: the sample-count
//! resolver (cookie over query parameter over built-in default), the Monte
//! Carlo trial loop, and the preference transitions that a set-defaults
//! request performs.

pub mod digits;
pub mod estimator;
pub mod preference;
pub mod resolver;
