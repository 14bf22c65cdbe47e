pub mod batch;
pub mod gate;
pub mod guard;
pub mod permission_state;
pub mod fence;
pub mod workers;
pub mod worker_loop;
pub mod results;
pub mod observability;
pub mod payload;
