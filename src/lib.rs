//! A three-dimensional vector of IEEE-754 doubles, with the comparison rule
//! of its components proved over their bit patterns.
pub mod double;
pub mod vec3;
