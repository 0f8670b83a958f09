//! A payroll-streaming engine: an employer commits funds that vest to a worker
//! between a start and an end time, and the worker withdraws what has vested.
//!
//! - [`accrual`] computes what has vested at a given time.
//! - [`stream`] holds the record of one stream and the steps of its life.
//! - [`ledger`] says, as functions on states, what each operation of the
//!   stream ledger does; [`payroll_stream`] is the ledger itself, and [`laws`]
//!   states what holds of every state that it can reach.
//! - [`gateway`] is the permission gateway through which agents act on an
//!   employer's behalf, and [`registry`] the directory of workers.
//! - [`custodian`] lists what the ledger asks of the custodian of the funds,
//!   and [`event`] what ledger and gateway report to those who watch them.
//!
//! The library decides and keeps books; it moves no funds, reads no clock and
//! authenticates nobody. The time and the party that has authorized a call are
//! arguments, and where the custodian of the funds has to act, an operation
//! takes the custodian's answer as an argument too.

pub mod accrual;
pub mod address;
pub mod address_map;
pub mod custodian;
pub mod error;
pub mod event;
pub mod exercise;
pub mod gateway;
pub mod laws;
pub mod ledger;
pub mod payroll_stream;
pub mod registry;
pub mod stream;

pub use accrual::accrued;
pub use address::{Address, AddressKind};
pub use custodian::Request;
pub use error::QuipayError;
pub use event::{GatewayEvent, StreamEvent};
pub use exercise::{action_strategy, exercise, time_leap_strategy};
pub use gateway::{Agent, AutomationGateway, Permission};
pub use ledger::{LedgerConfig, LedgerState};
pub use payroll_stream::PayrollStream;
pub use registry::{WorkerProfile, WorkforceRegistry};
pub use stream::{Settlement, Stream, StreamStatus};
