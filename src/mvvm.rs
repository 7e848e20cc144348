use vstd::prelude::*;

verus! {

/// A value compared by its contents that can check its own rules.
pub trait ValueObject {
    type ValidationError;

    fn validate(&self) -> Result<(), Self::ValidationError>;
}

/// Why an address was refused.
#[derive(Clone, Debug, PartialEq, Eq)]
pub enum EmailError {
    InvalidFormat(String),
}

impl EmailError {
    /// The human-readable form.
    pub fn message(&self) -> (r: String)
        ensures
            match self {
                EmailError::InvalidFormat(s) => r@ == "Invalid email format: "@ + s@,
            },
    {
        match self {
            EmailError::InvalidFormat(s) => String::from_str("Invalid email format: ").concat(s.as_str()),
        }
    }
}

/// Failures of a model object.
#[derive(Clone, Debug, PartialEq, Eq)]
pub enum ModelError {
    InvalidState(String),
    ValidationFailed(String),
    EventHandlingFailed(String),
}

impl ModelError {
    /// The human-readable form.
    pub fn message(&self) -> (r: String)
        ensures
            r@ == match self {
                ModelError::InvalidState(m) => "Invalid state: "@ + m@,
                ModelError::ValidationFailed(m) => "Validation failed: "@ + m@,
                ModelError::EventHandlingFailed(m) => "Event handling failed: "@ + m@,
            },
    {
        match self {
            ModelError::InvalidState(m) => String::from_str("Invalid state: ").concat(m.as_str()),
            ModelError::ValidationFailed(m) => String::from_str("Validation failed: ").concat(m.as_str()),
            ModelError::EventHandlingFailed(m) => String::from_str("Event handling failed: ").concat(m.as_str()),
        }
    }
}

/// The lifecycle state of a view model.
#[derive(Clone, Debug, PartialEq, Eq)]
pub enum ViewModelState {
    Initial,
    Loading,
    Ready,
    Error(String),
    Busy,
}

impl Default for ViewModelState {
    fn default() -> (r: ViewModelState)
        ensures
            r is Initial,
    {
        ViewModelState::Initial
    }
}

/// Failures reported by a view model to the interface.
#[derive(Clone, Debug, PartialEq, Eq)]
pub enum ViewModelError {
    InvalidCommand(String),
    InvalidQuery(String),
    ExecutionFailed(String),
    NotFound(String),
    ValidationError(String),
    Unauthorized(String),
}

impl ViewModelError {
    pub fn invalid_command(msg: &str) -> (r: ViewModelError)
        ensures
            r matches ViewModelError::InvalidCommand(m) && m@ == msg@,
    {
        ViewModelError::InvalidCommand(msg.to_owned())
    }

    pub fn invalid_query(msg: &str) -> (r: ViewModelError)
        ensures
            r matches ViewModelError::InvalidQuery(m) && m@ == msg@,
    {
        ViewModelError::InvalidQuery(msg.to_owned())
    }

    pub fn execution_failed(msg: &str) -> (r: ViewModelError)
        ensures
            r matches ViewModelError::ExecutionFailed(m) && m@ == msg@,
    {
        ViewModelError::ExecutionFailed(msg.to_owned())
    }

    pub fn not_found(msg: &str) -> (r: ViewModelError)
        ensures
            r matches ViewModelError::NotFound(m) && m@ == msg@,
    {
        ViewModelError::NotFound(msg.to_owned())
    }

    pub fn validation(msg: &str) -> (r: ViewModelError)
        ensures
            r matches ViewModelError::ValidationError(m) && m@ == msg@,
    {
        ViewModelError::ValidationError(msg.to_owned())
    }

    pub fn unauthorized(msg: &str) -> (r: ViewModelError)
        ensures
            r matches ViewModelError::Unauthorized(m) && m@ == msg@,
    {
        ViewModelError::Unauthorized(msg.to_owned())
    }

    /// The human-readable form: the kind, a colon, and the message.
    pub fn message(&self) -> (r: String)
        ensures
            r@ == match self {
                ViewModelError::InvalidCommand(m) => "Invalid command: "@ + m@,
                ViewModelError::InvalidQuery(m) => "Invalid query: "@ + m@,
                ViewModelError::ExecutionFailed(m) => "Execution failed: "@ + m@,
                ViewModelError::NotFound(m) => "Not found: "@ + m@,
                ViewModelError::ValidationError(m) => "Validation error: "@ + m@,
                ViewModelError::Unauthorized(m) => "Unauthorized: "@ + m@,
            },
    {
        let (prefix, m) = match self {
            ViewModelError::InvalidCommand(m) => ("Invalid command: ", m),
            ViewModelError::InvalidQuery(m) => ("Invalid query: ", m),
            ViewModelError::ExecutionFailed(m) => ("Execution failed: ", m),
            ViewModelError::NotFound(m) => ("Not found: ", m),
            ViewModelError::ValidationError(m) => ("Validation error: ", m),
            ViewModelError::Unauthorized(m) => ("Unauthorized: ", m),
        };
        String::from_str(prefix).concat(m.as_str())
    }
}

/// A view model: answers named commands and queries from the interface.
pub trait ViewModel {
    fn name(&self) -> String;

    fn state(&self) -> ViewModelState;

    fn handle_command(&mut self, command: &str, payload: &str) -> Result<String, ViewModelError>;

    fn handle_query(&self, query: &str, params: &[String]) -> Result<String, ViewModelError>;
}

} // verus!
