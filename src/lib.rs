//! Round-robin leader selection for BFT block production, and verification
//! that a block header was issued by the leader scheduled for its slot.

pub mod bft;
pub mod block;
pub mod find_address;
pub mod key;
pub mod leader_id;
pub mod leadership;
pub mod mempack;
pub mod text;
