mod distribution;
mod participant;

pub use distribution::{snapshot_step, Distribution};
pub use participant::{participant_update_step, Participant};
