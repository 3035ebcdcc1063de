//! A two-pool mass-transfer model with saturating (Michaelis-Menten) fluxes,
//! integrated by the classic fourth-order Runge-Kutta method in exact
//! fixed-point arithmetic.
use vstd::prelude::*;

pub mod error;
pub mod fixed;
pub mod model;
pub mod integrator;
pub mod driver;

pub use driver::{initial_record, next_record, run, StepObserver, Trace, TraceRecord};
pub use error::SimError;
pub use fixed::{Fixed, SCALE};
pub use integrator::step;
pub use model::{derivative, AuxiliaryResults, Derivative, Parameters, State};
