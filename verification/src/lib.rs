//! Allocation of pseudo-terminal (PTY) pairs on devpts-style kernels.
//!
//! The allocation protocol — open the multiplexer, unlock, retrieve the
//! slave number, open the slave, optionally configure it — is modelled and
//! verified here as a linear state machine.  The kernel calls themselves are
//! performed by an unverified driver that asks the state machine what to do
//! next and reports each call's outcome back.

mod config;
mod path;
mod laws;
mod protocol;

pub use laws::opened_by;
pub use laws::lemma_pairing_atomicity;
pub use laws::lemma_reported_path;
pub use laws::lemma_opened_path;
pub use laws::lemma_modes_application;
pub use laws::lemma_size_application;
pub use laws::lemma_init_invariant;
pub use laws::lemma_step_preserves_invariant;
pub use laws::lemma_successful_run;
pub use laws::run_model;
pub use laws::run_fits;
pub use laws::step_released;
pub use laws::run_released;
pub use laws::run_opened;
pub use laws::lemma_run_conservation;

pub use protocol::Action;
pub use protocol::ActionModel;
pub use protocol::Allocation;
pub use protocol::Model;
pub use protocol::Outcome;
pub use protocol::Phase;
pub use protocol::Step;
pub use protocol::StepModel;
pub use protocol::init_model;
pub use protocol::outcome_fits;
pub use protocol::close_list;
pub use protocol::aborted;
pub use protocol::succeeded;
pub use protocol::step_of;

pub use path::decimal_digit;
pub use path::decimal_seq;
pub use path::default_slave_path;
pub use path::resolved_path;
pub use path::decimal_string;
pub use path::resolve_slave_path;
pub use config::TermiosConfig;
pub use config::TermiosModel;
pub use config::Winsize;
pub use config::AllocRequest;
pub use config::RequestModel;
pub use config::AllocError;
