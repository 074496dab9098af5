pub mod counter;
pub mod float_bits;
