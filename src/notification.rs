use vstd::prelude::*;
use crate::error::DomainError;

verus! {

/// A notification with its optional presentation settings.
pub struct NotificationOptions {
    pub title: String,
    pub message: String,
    pub icon: Option<String>,
    pub timeout_ms: Option<u64>,
}

/// The port through which the core asks for a desktop notification; the
/// shell supplies the implementation.
pub trait NotificationService {
    fn send(&self, title: &str, message: &str) -> Result<(), DomainError>;

    fn send_with_options(&self, notification: NotificationOptions) -> Result<(), DomainError>;
}

} // verus!
