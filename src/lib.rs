//! Payment reconciliation for merchant orders settled on chain, and the
//! identity layer that ties each order to an authenticated subject: wallet
//! signature checks, derived addresses for external identities, and the
//! bearer credentials issued for both.

pub mod auth;
pub mod identity;
pub mod indexer;
pub mod order;
pub mod wallet;
