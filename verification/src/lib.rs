//! Small numeric kernels over slices, fixed tables and vectors, each in
//! several formulations that share one contract.

pub mod add_pairs;
pub mod add_two_slices;
pub mod primality;
pub mod results;
pub mod table_laws;
pub mod table_lookup;
pub mod vec_push;
