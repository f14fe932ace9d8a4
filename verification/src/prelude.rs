//! The names most callers want in scope.

pub use crate::Calculation;
pub use crate::Cause;
pub use crate::Frequency;
pub use crate::GenerateBuilder;
pub use crate::Problem;
pub use crate::State;
pub use crate::Status;
pub use crate::Target;
pub use crate::UserState;
