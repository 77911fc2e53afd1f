//! Fire-and-forget verification-notification port.

use vstd::prelude::*;

verus! {

/// Delivery port for templated notification email. Implementations are
/// external collaborators (SMTP, queues); nothing is promised of the
/// outcome, and callers must propagate a delivery error without caching
/// state of their own.
pub trait EmailService {
    /// Deliver one templated message to `to`. `context` carries the
    /// template's key/value substitutions.
    fn send_email(
        &self,
        to: &str,
        subject: &str,
        template_name: &str,
        context: Vec<(String, String)>,
    ) -> Result<(), String>;
}

/// Production delivery port; its transport wiring lives outside the core.
pub struct EmailServiceImpl {}

/// Development stand-in: accepts every message without delivering it.
pub struct EmailServiceDevelImpl {}

/// A development notifier that always accepts.
pub fn new_email_service_devel() -> (r: EmailServiceDevelImpl) {
    EmailServiceDevelImpl {  }
}

impl EmailService for EmailServiceDevelImpl {
    /// Always accepts: the development notifier delivers nothing and never
    /// fails.
    #[allow(unused_variables)]
    fn send_email(
        &self,
        to: &str,
        subject: &str,
        template_name: &str,
        context: Vec<(String, String)>,
    ) -> (r: Result<(), String>)
        ensures
            r is Ok,
    {
        Ok(())
    }
}

} // verus!
