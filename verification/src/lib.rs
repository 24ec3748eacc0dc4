//! Block-proposal construction and transaction admission for a
//! proof-of-stake ledger node, with the token arithmetic it rests on.

pub mod address;
pub mod admission;
pub mod api;
pub mod block_alloc;
pub mod context;
pub mod controller;
pub mod dec;
pub mod gas;
pub mod hash;
pub mod int256;
pub mod pgf;
pub mod prepare_proposal;
pub mod shell;
pub mod state;
pub mod storage;
pub mod time;
pub mod token;
pub mod tx;
pub mod uint;
pub mod vm;
pub mod vp_env;
