//! Validation of Iranian national identification codes.
//!
//! A candidate code is any text. Its decimal digits are kept, in order, and
//! everything else is discarded. Eight to ten digits are padded on the left
//! with zeros to the ten-digit standard form, whose last digit must be the
//! check digit that the first nine determine.

pub mod checksum;
pub mod laws;
pub mod model;
pub mod normalize;
pub mod standard;
pub mod validator;

pub use validator::is_valid;
