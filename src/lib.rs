// A campaign-based reward ledger. Deposits fund a campaign once, users claim
// from it, its depositor withdraws what is left, and an owner administers the
// pool. Every operation works on the records the host located for it and
// returns the token transfers the host must carry out.

pub mod pubkey;
pub mod state;
pub mod instructions;
pub mod laws;
