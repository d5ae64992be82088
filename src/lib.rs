//! Native side of the voxscribe desktop shell: the greeting command, the
//! single-instance deep-link router and the startup decisions, each with a
//! verified contract.
pub mod greeting;
pub mod router;
pub mod setup;

pub use greeting::greet;
pub use router::{plan_second_instance, ArbiterEvent, ArbiterState, RouterAction};
pub use setup::{setup_result, SetupError, TargetPlatform};
