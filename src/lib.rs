//! A scheduled treasury disbursement engine: an eligibility gate, a
//! proportional allocator over basis-point weights, and an orchestrator that
//! composes the two and advances the execution cursor of the engine state.
pub mod buyback_engine;
pub mod errors;
pub mod schedule_engine;
pub mod state;
pub mod treasury_router;

pub use buyback_engine::{commit_execution, execute_buyback, ExecutionOutcome};
pub use errors::SBEError;
pub use schedule_engine::schedule_satisfied;
pub use state::EngineState;
pub use treasury_router::{route, RoutingResult};
