pub mod approve_milestone;
pub mod cancel_escrow;
pub mod claim_expired;
pub mod close_escrow;
pub mod create_escrow;
pub mod initialize_config;
pub mod initiate_dispute;
pub mod mint_receipt;
pub mod release_milestone;
pub mod resolve_dispute;
pub mod revoke_receipt;
pub mod sync_beneficiary;
pub mod transfer_claim;
pub mod update_config;
