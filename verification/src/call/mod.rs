pub mod detector;
pub mod parser;
pub mod state;

pub use state::{CallEvent, CallMetadata, CallState};
pub use parser::{AndroidTelephonyParser, TelephonyParser};
pub use detector::CallStateMachine;
