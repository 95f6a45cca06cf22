use vstd::prelude::*;

verus! {

#[verifier::external_type_specification]
#[verifier::external_body]
pub struct ExInvalidUri(http::uri::InvalidUri);

/// Whether http's authority parser accepts the text `s`.
pub uninterp spec fn authority_accepted(s: Seq<char>) -> bool;

/// Relies on http's `Authority::from_str`: it accepts or refuses a text on its
/// characters alone, keeps an accepted text as given (`as_str`), and refuses
/// the empty text.
#[verifier::external_body]
fn parse_authority(s: &str) -> (r: Result<String, http::uri::InvalidUri>)
    ensures
        r is Ok <==> authority_accepted(s@),
        r matches Ok(a) ==> a@ == s@,
        s@.len() == 0 ==> r is Err,
{
    match <http::uri::Authority as std::str::FromStr>::from_str(s) {
        Ok(a) => Ok(a.as_str().to_string()),
        Err(e) => Err(e),
    }
}

/// Why the proxy could not be set up.
#[derive(PartialEq, Eq, Structural, Clone, Copy, Debug)]
pub enum ConfigError {
    /// The backend address is not a valid `host:port` authority.
    InvalidAuthority,
}

/// The fixed backend that every request is forwarded to.
pub struct ProxyConfig {
    pub authority: String,
}

impl ProxyConfig {
    /// A valid configuration names an authority that http accepts.
    pub open spec fn wf(&self) -> bool {
        authority_accepted(self.authority@)
    }

    /// Parses the backend authority once, at startup.
    pub fn new(forward_authority: &str) -> (r: Result<ProxyConfig, ConfigError>)
        ensures
            r is Ok <==> authority_accepted(forward_authority@),
            r matches Ok(c) ==> c.wf() && c.authority@ == forward_authority@,
            r matches Err(e) ==> e == ConfigError::InvalidAuthority,
            forward_authority@.len() == 0 ==> r is Err,
    {
        match parse_authority(forward_authority) {
            Ok(a) => Ok(ProxyConfig { authority: a }),
            Err(_) => Err(ConfigError::InvalidAuthority),
        }
    }
}

/// What the listener loop sees.
pub enum ListenerEvent {
    /// A new inbound connection.
    Accepted,
    /// Accepting failed.
    AcceptFailed,
    /// The shutdown signal changed to this value.
    Shutdown(bool),
}

/// What the listener loop does about it.
#[derive(PartialEq, Eq, Structural, Clone, Copy, Debug)]
pub enum ListenerAction {
    /// Serve the connection in a task of its own.
    Serve,
    /// Log the failure and keep accepting.
    LogAcceptError,
    /// Keep accepting.
    Wait,
    /// Stop accepting and return; tasks already spawned go on.
    Stop,
}

/// The next state (whether stopped) and the action, for event `e`.
pub open spec fn listener_step(stopped: bool, e: ListenerEvent) -> (bool, ListenerAction) {
    if stopped {
        (true, ListenerAction::Stop)
    } else {
        match e {
            ListenerEvent::Accepted => (false, ListenerAction::Serve),
            ListenerEvent::AcceptFailed => (false, ListenerAction::LogAcceptError),
            ListenerEvent::Shutdown(true) => (true, ListenerAction::Stop),
            ListenerEvent::Shutdown(false) => (false, ListenerAction::Wait),
        }
    }
}

/// The actions for the events `es`, one each, from the state `stopped`.
pub open spec fn listener_run(stopped: bool, es: Seq<ListenerEvent>) -> Seq<ListenerAction>
    decreases es.len(),
{
    if es.len() == 0 {
        Seq::empty()
    } else {
        let (next, a) = listener_step(stopped, es[0]);
        seq![a] + listener_run(next, es.drop_first())
    }
}

/// The state of the listener loop.
pub struct Acceptor {
    pub stopped: bool,
}

impl Acceptor {
    /// A listener that accepts.
    pub fn new() -> (r: Acceptor)
        ensures
            !r.stopped,
    {
        Acceptor { stopped: false }
    }

    /// Decides on one event.
    pub fn on_event(&mut self, e: ListenerEvent) -> (r: ListenerAction)
        ensures
            (final(self).stopped, r) == listener_step(old(self).stopped, e),
    {
        if self.stopped {
            return ListenerAction::Stop;
        }
        match e {
            ListenerEvent::Accepted => ListenerAction::Serve,
            ListenerEvent::AcceptFailed => ListenerAction::LogAcceptError,
            ListenerEvent::Shutdown(on) => {
                if on {
                    self.stopped = true;
                    ListenerAction::Stop
                } else {
                    ListenerAction::Wait
                }
            },
        }
    }
}

proof fn lemma_stopped_stays(es: Seq<ListenerEvent>)
    ensures
        listener_run(true, es).len() == es.len(),
        forall|i: int| 0 <= i < es.len() ==> #[trigger] listener_run(true, es)[i] == ListenerAction::Stop,
    decreases es.len(),
{
    if es.len() > 0 {
        lemma_stopped_stays(es.drop_first());
        assert forall|i: int| 0 <= i < es.len() implies #[trigger] listener_run(true, es)[i]
            == ListenerAction::Stop by {
            if i > 0 {
                assert(listener_run(true, es)[i] == listener_run(true, es.drop_first())[i - 1]);
            }
        }
    }
}

/// Once the shutdown signal turns true, the listener serves no further
/// connection: every later event, an accepted connection too, gives `Stop`.
pub proof fn lemma_no_serve_after_shutdown(stopped: bool, es: Seq<ListenerEvent>, k: int)
    requires
        0 <= k < es.len(),
        es[k] == ListenerEvent::Shutdown(true),
    ensures
        listener_run(stopped, es).len() == es.len(),
        forall|j: int| k <= j < es.len() ==> #[trigger] listener_run(stopped, es)[j] == ListenerAction::Stop,
    decreases k,
{
    let (next, a) = listener_step(stopped, es[0]);
    let rest = es.drop_first();
    if k == 0 {
        lemma_stopped_stays(rest);
        assert forall|j: int| k <= j < es.len() implies #[trigger] listener_run(stopped, es)[j]
            == ListenerAction::Stop by {
            if j > 0 {
                assert(listener_run(stopped, es)[j] == listener_run(true, rest)[j - 1]);
            }
        }
    } else {
        lemma_no_serve_after_shutdown(next, rest, k - 1);
        assert forall|j: int| k <= j < es.len() implies #[trigger] listener_run(stopped, es)[j]
            == ListenerAction::Stop by {
            assert(listener_run(stopped, es)[j] == listener_run(next, rest)[j - 1]);
        }
    }
}

} // verus!
