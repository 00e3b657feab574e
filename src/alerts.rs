//! Operator alerts: settings, and the alerts raised for failed executions
//! and security events. Delivery to Slack or PagerDuty happens outside.
use vstd::prelude::*;

use crate::text::concat;

verus! {

/// Alert settings.
#[derive(Clone, Debug)]
pub struct AlertConfig {
    pub enabled: bool,
    pub slack_webhook_url: Option<String>,
    pub pagerduty_key: Option<String>,
    pub email: Option<EmailConfig>,
    pub alert_on_errors: bool,
    pub alert_on_security: bool,
    pub alert_on_resources: bool,
}

/// Mail delivery settings.
#[derive(Clone, Debug)]
pub struct EmailConfig {
    pub smtp_server: String,
    pub smtp_port: u16,
    pub from_address: String,
    pub to_addresses: Vec<String>,
    pub username: Option<String>,
    pub password: Option<String>,
}

impl Default for AlertConfig {
    fn default() -> (r: AlertConfig)
        ensures
            !r.enabled,
            r.slack_webhook_url is None,
            r.pagerduty_key is None,
            r.email is None,
            r.alert_on_errors && r.alert_on_security && r.alert_on_resources,
    {
        AlertConfig {
            enabled: false,
            slack_webhook_url: None,
            pagerduty_key: None,
            email: None,
            alert_on_errors: true,
            alert_on_security: true,
            alert_on_resources: true,
        }
    }
}

#[derive(Clone, Copy, Debug, PartialEq, Eq, Structural)]
pub enum AlertSeverity {
    Info,
    Warning,
    Error,
    Critical,
}

/// An alert to deliver.
#[derive(Clone, Debug)]
pub struct Alert {
    pub severity: AlertSeverity,
    pub title: String,
    pub message: String,
    pub user_id: Option<String>,
    pub execution_id: Option<String>,
}

/// Decides which alerts go out.
pub struct AlertManager {
    pub config: AlertConfig,
}

impl AlertManager {
    pub fn new(config: AlertConfig) -> (r: AlertManager)
        ensures
            r.config == config,
    {
        AlertManager { config }
    }

    /// Whether an alert is delivered to Slack.
    pub fn sends_to_slack(&self) -> (r: bool)
        ensures
            r == (self.config.enabled && self.config.slack_webhook_url is Some),
    {
        self.config.enabled && self.config.slack_webhook_url.is_some()
    }

    /// Whether an alert is delivered to PagerDuty.
    pub fn sends_to_pagerduty(&self) -> (r: bool)
        ensures
            r == (self.config.enabled && self.config.pagerduty_key is Some),
    {
        self.config.enabled && self.config.pagerduty_key.is_some()
    }

    /// The alert for a failed execution.
    pub fn execution_error(user_id: String, execution_id: String, error: String) -> (r: Alert)
        ensures
            r.severity == AlertSeverity::Error,
            r.title@ == "Code Execution Failed"@,
            r.message@ == "Execution failed: "@ + error@,
            r.user_id == Some(user_id),
            r.execution_id == Some(execution_id),
    {
        Alert {
            severity: AlertSeverity::Error,
            title: "Code Execution Failed".to_string(),
            message: concat("Execution failed: ", error.as_str()),
            user_id: Some(user_id),
            execution_id: Some(execution_id),
        }
    }

    /// The alert for a security event.
    pub fn security_event(user_id: String, event_type: String, details: String) -> (r: Alert)
        ensures
            r.severity == AlertSeverity::Warning,
            r.title@ == "Security Event: "@ + event_type@,
            r.message == details,
            r.user_id == Some(user_id),
            r.execution_id is None,
    {
        Alert {
            severity: AlertSeverity::Warning,
            title: concat("Security Event: ", event_type.as_str()),
            message: details,
            user_id: Some(user_id),
            execution_id: None,
        }
    }
}

} // verus!
