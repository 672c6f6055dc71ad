//! Response types of the DeltaDeFi API and of its account stream.
pub mod accounts;
pub mod order;
pub mod stream;
