mod claim;
mod create_distribution;
mod create_participant;
mod log_info;
mod set_time_offset;
mod start_claim_phase;
mod update_participant;

pub use claim::{claim, lemma_pro_rata_share_bounds, pro_rata_share};
pub use create_distribution::create_distribution;
pub use create_participant::create_participant;
pub use log_info::log_info;
pub use set_time_offset::set_time_offset;
pub use start_claim_phase::start_claim_phase;
pub use update_participant::update_participant;
