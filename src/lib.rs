//! A two-party escrow swap: a maker locks a quantity of one asset in a custody
//! account controlled by a program-derived address, and a taker settles by
//! paying the declared quantity of a second asset, or the maker reclaims.
pub mod address;
pub mod layout;
pub mod lifecycle;
pub mod make;
pub mod pda;
pub mod refund;
pub mod state;
pub mod token;
pub mod take;
