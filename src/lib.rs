// Decides which PNG files under a directory to optimize: the recursive glob
// pattern, the age rule on creation times, and the per-entry steps of one
// pass with its count of attempted files.

pub mod age;
pub mod laws;
pub mod pattern;
pub mod scan;
