//! The conditions that driver operations report.
use vstd::prelude::*;

verus! {

/// A failed driver operation.
#[derive(Clone, Debug, PartialEq, Eq)]
pub enum DriverError {
    /// Options that cannot be used together.
    Configuration(String),
    /// The connection was closed before the operation.
    ConnectionClosed,
    /// A failure reported by the storage engine, passed on verbatim.
    Engine(String),
    /// A bound parameter of an unsupported kind.
    ParameterType(String),
}

impl DriverError {
    /// The text shown to the caller.
    pub fn message(&self) -> (r: String)
        ensures
            self is ConnectionClosed ==> r@ == "Connection closed"@,
            self matches DriverError::Configuration(m) ==> r@ == m@,
            self matches DriverError::Engine(m) ==> r@ == m@,
            self matches DriverError::ParameterType(m) ==> r@ == m@,
    {
        match self {
            DriverError::Configuration(m) => m.clone(),
            DriverError::ConnectionClosed => String::from_str("Connection closed"),
            DriverError::Engine(m) => m.clone(),
            DriverError::ParameterType(m) => m.clone(),
        }
    }
}

} // verus!
