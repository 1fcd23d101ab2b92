//! A registry of kitties: 16-byte genomes, each owned by one account, that can
//! be minted, bred, listed for sale and bought, with a stake reserved from the
//! owner's balance for every kitty held.

pub mod dna;
pub mod entropy;
pub mod laws;
pub mod ledger;
pub mod pallet;
