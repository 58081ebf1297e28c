use vstd::prelude::*;

use crate::registry::{registry_emitted, Alerts, DEFAULT_CHANNEL};

verus! {

/// Turns the outcome of one fallible operation into notifications on the
/// default channel: a failure, given by its display text, becomes one
/// notification; a success is handed back untouched and reports nothing.
pub fn anyhow_alert_system<T>(input: Result<T, String>, alerts: &mut Alerts) -> (r: Option<T>)
    requires
        old(alerts).wf(),
    ensures
        final(alerts).wf(),
        match input {
            Ok(v) => r == Some(v) && final(alerts)@ == old(alerts)@,
            Err(e) => r is None && final(alerts)@ == registry_emitted(old(alerts)@, DEFAULT_CHANNEL, seq![e]),
        },
{
    match input {
        Ok(v) => Some(v),
        Err(e) => {
            let mut messages: Vec<String> = Vec::new();
            messages.push(e);
            assert(messages@ =~= seq![e]);
            alerts.alert(DEFAULT_CHANNEL, messages);
            None
        },
    }
}

/// Turns the outcome of an operation that collects its failures into
/// notifications on the default channel: one per failure, in the order
/// collected. A success is handed back untouched; neither it nor an empty
/// collection reports anything.
pub fn anyhow_alerts_system<T>(input: Result<T, Vec<String>>, alerts: &mut Alerts) -> (r: Option<T>)
    requires
        old(alerts).wf(),
    ensures
        final(alerts).wf(),
        match input {
            Ok(v) => r == Some(v) && final(alerts)@ == old(alerts)@,
            Err(es) => r is None && final(alerts)@ == registry_emitted(old(alerts)@, DEFAULT_CHANNEL, es@),
        },
{
    match input {
        Ok(v) => Some(v),
        Err(es) => {
            alerts.alert(DEFAULT_CHANNEL, es);
            None
        },
    }
}

} // verus!
