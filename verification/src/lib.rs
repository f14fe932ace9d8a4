//! Trellis: a generic driver for iterative calculations.
//!
//! A caller supplies a problem, an application-specific state, and a
//! three-phase algorithm (initialise, next, finalise).  The library owns the
//! iteration envelope: lifecycle sequencing, convergence and termination
//! accounting, iteration counting and timing, cooperative cancellation from
//! several independent sources, and a fan-out of observation events to
//! attached sinks.

mod builder;
mod calculation;
mod controller;
mod file;
mod float;
mod killswitch;
mod plotters;
pub mod prelude;
mod problem;
mod result;
mod runner;
mod state;
mod status;
mod tracer;
mod watchers;

pub use builder::{Builder, BuilderError, BuilderView, GenerateBuilder};
pub use calculation::Calculation;
pub use controller::Control;
pub use file::{FileWriter, WriteToFileSerializer};
pub use float::{FloatBits, TrellisFloat};
pub use killswitch::{first_fired_cause, Holder, KillFlag, Killswitch};
pub use plotters::{check_interior_dimensions, check_line_dimensions, PlotConfig, PlotterError};
pub use problem::Problem;
pub use result::{error_of_cause, ErrorCause, Output, TrellisError};
pub use runner::Runner;
pub use state::{Elapsed, ErrorEstimate, State, StateView, UserState};
pub use status::{Cause, Status};
pub use tracer::{Tracer, Verbosity};
pub use watchers::{
    should_fire, AttachedObserver, Frequency, Observable, ObservationError, Observer,
    ObserverHandle, ObserverSlice, ObserverVec, Stage, Target,
};
