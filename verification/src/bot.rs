//! Bringing the service up and down: the order in which the webhook is
//! registered, the listener bound and updates served, and what ends it.
//!
//! As with the handler, the steps decide and the caller acts.

use crate::config::LISTEN_HOST;
use vstd::prelude::*;

verus! {

/// Why the service did not come up.
#[derive(Debug, Clone, Copy, PartialEq, Eq)]
pub enum StartupError {
    /// The platform did not take the webhook URL.
    WebhookRejected,
    /// The listener could not be set up on its address.
    ListenerFailed,
}

impl StartupError {
    /// The error in words.
    pub open spec fn message_text(self) -> Seq<char> {
        match self {
            StartupError::WebhookRejected => "Failed to set webhook"@,
            StartupError::ListenerFailed => "Failed to create webhook listener"@,
        }
    }

    /// The error in words.
    pub fn message(&self) -> (text: &'static str)
        ensures
            text@ == self.message_text(),
    {
        match self {
            StartupError::WebhookRejected => "Failed to set webhook",
            StartupError::ListenerFailed => "Failed to create webhook listener",
        }
    }
}

/// How far the service has come.
#[derive(Debug, Clone, Copy, PartialEq, Eq)]
pub enum ServiceState {
    /// Nothing has been done yet.
    Created,
    /// The webhook is being registered; the listener will use this port.
    Registering { port: u16 },
    /// The listener is being bound.
    Binding,
    /// Updates are being served.
    Serving,
    /// The service is over.
    Ended,
}

/// What has just happened.
#[derive(Debug, Clone, Copy, PartialEq, Eq)]
pub enum ServiceEvent {
    /// The service was asked to start and to listen on this port.
    Start { port: u16 },
    /// The platform answered the registration of the webhook.
    Registered { accepted: bool },
    /// The listener was set up, or could not be.
    Bound { listening: bool },
    /// An interrupt stopped the serving, and what was in flight has drained.
    Drained,
}

/// What to do next.
#[derive(Debug, Clone, PartialEq, Eq)]
pub enum ServiceAction {
    /// Register this URL with the platform as the webhook.
    SetWebhook { url: String },
    /// Listen on this address for the updates that the platform posts to
    /// this URL.
    Listen { host: [u8; 4], port: u16, url: String },
    /// Serve updates until an interrupt, handing each inline query to the
    /// handler and acknowledging every update.
    Serve,
    /// Give up: the service cannot start.
    Fail(StartupError),
    /// Leave: the service has ended in good order.
    Stop,
}

pub enum ServiceActionView {
    SetWebhook { url: Seq<char> },
    Listen { host: [u8; 4], port: u16, url: Seq<char> },
    Serve,
    Fail(StartupError),
    Stop,
}

impl View for ServiceAction {
    type V = ServiceActionView;

    open spec fn view(&self) -> ServiceActionView {
        match self {
            ServiceAction::SetWebhook { url } => ServiceActionView::SetWebhook { url: url@ },
            ServiceAction::Listen { host, port, url } => ServiceActionView::Listen {
                host: *host,
                port: *port,
                url: url@,
            },
            ServiceAction::Serve => ServiceActionView::Serve,
            ServiceAction::Fail(error) => ServiceActionView::Fail(*error),
            ServiceAction::Stop => ServiceActionView::Stop,
        }
    }
}

/// One step of the service whose webhook is `webhook_url`: the state it
/// moves to and what it asks for.
///
/// The webhook is registered first, then the listener is bound, then
/// updates are served; a failure of either of the first two is the end. An
/// event that the state does not wait for ends the service too.
pub open spec fn service_step(webhook_url: Seq<char>, state: ServiceState, event: ServiceEvent) -> (
    ServiceState,
    ServiceActionView,
) {
    match (state, event) {
        (ServiceState::Created, ServiceEvent::Start { port }) => (
            ServiceState::Registering { port },
            ServiceActionView::SetWebhook { url: webhook_url },
        ),
        (ServiceState::Registering { port }, ServiceEvent::Registered { accepted }) => {
            if accepted {
                (
                    ServiceState::Binding,
                    ServiceActionView::Listen { host: LISTEN_HOST, port, url: webhook_url },
                )
            } else {
                (ServiceState::Ended, ServiceActionView::Fail(StartupError::WebhookRejected))
            }
        },
        (ServiceState::Binding, ServiceEvent::Bound { listening }) => {
            if listening {
                (ServiceState::Serving, ServiceActionView::Serve)
            } else {
                (ServiceState::Ended, ServiceActionView::Fail(StartupError::ListenerFailed))
            }
        },
        _ => (ServiceState::Ended, ServiceActionView::Stop),
    }
}

/// The actions that the service asks for, in order, when it starts in
/// `state` and is told of `events` one after another.
pub open spec fn service_run(
    webhook_url: Seq<char>,
    state: ServiceState,
    events: Seq<ServiceEvent>,
) -> Seq<ServiceActionView>
    decreases events.len(),
{
    if events.len() == 0 {
        Seq::empty()
    } else {
        let (next, action) = service_step(webhook_url, state, events[0]);
        seq![action] + service_run(webhook_url, next, events.drop_first())
    }
}

/// A service that has ended only ever asks to stop.
pub proof fn lemma_ended_stays_ended(
    webhook_url: Seq<char>,
    events: Seq<ServiceEvent>,
    i: int,
)
    requires
        0 <= i < events.len(),
    ensures
        service_run(webhook_url, ServiceState::Ended, events).len() == events.len(),
        service_run(webhook_url, ServiceState::Ended, events)[i] is Stop,
    decreases events.len(),
{
    lemma_run_length(webhook_url, ServiceState::Ended, events);
    if i > 0 {
        lemma_ended_stays_ended(webhook_url, events.drop_first(), i - 1);
    }
}

/// The service asks for one action after each event.
pub proof fn lemma_run_length(webhook_url: Seq<char>, state: ServiceState, events: Seq<ServiceEvent>)
    ensures
        service_run(webhook_url, state, events).len() == events.len(),
    decreases events.len(),
{
    if events.len() > 0 {
        lemma_run_length(
            webhook_url,
            service_step(webhook_url, state, events[0]).0,
            events.drop_first(),
        );
    }
}

/// Whatever the service is told, in whatever order: it registers the webhook
/// as its first action or never, binds the listener as its second action or
/// never and only after registering the webhook, and serves as its third
/// action or never and only after both. The listener is bound on this host
/// alone, on the port that the start named.
pub proof fn lemma_startup_order(webhook_url: Seq<char>, events: Seq<ServiceEvent>, i: int)
    requires
        0 <= i < events.len(),
    ensures
        service_run(webhook_url, ServiceState::Created, events).len() == events.len(),
        service_run(webhook_url, ServiceState::Created, events)[i] is SetWebhook ==> i == 0,
        service_run(webhook_url, ServiceState::Created, events)[i] matches ServiceActionView::Listen {
            host,
            port,
            url,
        } ==> i == 1 && service_run(webhook_url, ServiceState::Created, events)[0] is SetWebhook
            && host == LISTEN_HOST && url == webhook_url && events[0] == (ServiceEvent::Start {
            port,
        }),
        service_run(webhook_url, ServiceState::Created, events)[i] is Serve ==> i == 2
            && service_run(webhook_url, ServiceState::Created, events)[0] is SetWebhook
            && service_run(webhook_url, ServiceState::Created, events)[1] is Listen,
{
    let created = ServiceState::Created;
    lemma_run_length(webhook_url, created, events);
    let (first, _) = service_step(webhook_url, created, events[0]);
    let after_first = events.drop_first();
    lemma_run_length(webhook_url, first, after_first);
    if i >= 1 {
        if first is Ended {
            lemma_ended_stays_ended(webhook_url, after_first, i - 1);
        } else {
            let (second, _) = service_step(webhook_url, first, after_first[0]);
            let after_second = after_first.drop_first();
            lemma_run_length(webhook_url, second, after_second);
            if i >= 2 {
                if second is Ended {
                    lemma_ended_stays_ended(webhook_url, after_second, i - 2);
                } else {
                    let (third, _) = service_step(webhook_url, second, after_second[0]);
                    let after_third = after_second.drop_first();
                    lemma_run_length(webhook_url, third, after_third);
                    if i >= 3 {
                        if third is Ended {
                            lemma_ended_stays_ended(webhook_url, after_third, i - 3);
                        } else {
                            let (fourth, _) = service_step(webhook_url, third, after_third[0]);
                            lemma_run_length(webhook_url, fourth, after_third.drop_first());
                            if i >= 4 {
                                lemma_ended_stays_ended(
                                    webhook_url,
                                    after_third.drop_first(),
                                    i - 4,
                                );
                            }
                        }
                    }
                }
            }
        }
    }
}

/// The service's rules: which webhook it registers and in which order it
/// comes up.
#[derive(Debug, Clone, PartialEq, Eq)]
pub struct BotService {
    /// The URL that the platform posts updates to.
    pub webhook_url: String,
}

impl BotService {
    /// One step in the life of the service.
    pub fn start_webhook(&self, state: ServiceState, event: ServiceEvent) -> (next: (
        ServiceState,
        ServiceAction,
    ))
        ensures
            (next.0, next.1@) == service_step(self.webhook_url@, state, event),
    {
        match (state, event) {
            (ServiceState::Created, ServiceEvent::Start { port }) => (
                ServiceState::Registering { port },
                ServiceAction::SetWebhook { url: self.webhook_url.clone() },
            ),
            (ServiceState::Registering { port }, ServiceEvent::Registered { accepted }) => {
                if accepted {
                    (
                        ServiceState::Binding,
                        ServiceAction::Listen {
                            host: LISTEN_HOST,
                            port,
                            url: self.webhook_url.clone(),
                        },
                    )
                } else {
                    (ServiceState::Ended, ServiceAction::Fail(StartupError::WebhookRejected))
                }
            },
            (ServiceState::Binding, ServiceEvent::Bound { listening }) => {
                if listening {
                    (ServiceState::Serving, ServiceAction::Serve)
                } else {
                    (ServiceState::Ended, ServiceAction::Fail(StartupError::ListenerFailed))
                }
            },
            _ => (ServiceState::Ended, ServiceAction::Stop),
        }
    }
}

} // verus!
