//! Digital-rain screensaver core: the live configuration that keypresses
//! change, and the engine that moves one falling stream per screen column.
pub mod config;
pub mod rain;
pub mod random;
