//! The relay core of agentmux: identity, routing decisions and the delivery
//! state machines, each stated as a contract and proved.
pub mod clock;
pub mod configuration;
pub mod contract;
pub mod cross_relay;
pub mod decisions;
pub mod delivery;
pub mod discovery;
pub mod drain;
pub mod errors;
pub mod groups;
pub mod identity;
pub mod identity_admin;
pub mod install;
pub mod lifecycle;
pub mod listing;
pub mod operations;
pub mod ordering;
pub mod principals;
pub mod registry;
pub mod send;
pub mod single_target;
pub mod seqs;
pub mod startup_state;
pub mod text;
