//! The binding handshake: register a host object under a name, probe from
//! script whether the name is resolvable, and re-register until it is.
//!
//! The engine may discard page-global script state during a navigation that
//! races with registration, so one registration call is not durable. The
//! protocol closes that race: it only completes once a probe has observably
//! seen the binding, and it completes exactly once.

use vstd::prelude::*;
use vstd::string::StringExecFns;

verus! {

/// What the guarded probe expression reports: the name resolved, or the
/// lookup threw and the guard swallowed the exception.
#[derive(Clone, Copy, PartialEq, Eq, Structural, Debug)]
pub enum ProbeReply {
    Loaded,
    NotLoaded,
}

/// What a handshake step asks of the engine driver next.
#[derive(Clone, Copy, PartialEq, Eq, Structural, Debug)]
pub enum BindStep {
    /// The binding is visible; invoke the completion continuation now,
    /// exactly once.
    Bound,
    /// Not visible yet; register the object under the name again and
    /// inject the probe again.
    Retry,
}

/// A probe result outside the two recognized literals is a programming
/// error, not a normal outcome: the caller must fault loudly instead of
/// looping silently.
#[derive(Clone, Copy, PartialEq, Eq, Structural, Debug)]
pub enum HandshakeError {
    UnrecognizedReply,
}

/// The probe expression for `name`: evaluates the type of the binding
/// inside a guard, yielding the literal `"loaded"` when resolvable and
/// `"not_loaded"` on any exception, never propagating the exception.
pub open spec fn probe_script(name: Seq<char>) -> Seq<char> {
    "(function () { try { typeof window.chrome.webview.hostObjects.sync."@ + name
        + "; return 'loaded'; } catch (e) { return 'not_loaded'; } })()"@
}

/// Builds the guarded probe expression that reports whether `name` is
/// resolvable in the script global namespace.
pub fn check_loaded(name: &str) -> (r: String)
    ensures
        r@ == probe_script(name@),
{
    let mut s = String::from_str("(function () { try { typeof window.chrome.webview.hostObjects.sync.");
    s.append(name);
    s.append("; return 'loaded'; } catch (e) { return 'not_loaded'; } })()");
    s
}

/// The parse that a raw engine reply is owed: the engine hands the probe
/// result back as a JSON-quoted string.
pub open spec fn spec_parse_probe_reply(raw: Seq<char>) -> Option<ProbeReply> {
    if raw == "\"loaded\""@ {
        Some(ProbeReply::Loaded)
    } else if raw == "\"not_loaded\""@ {
        Some(ProbeReply::NotLoaded)
    } else {
        None
    }
}

/// Decodes a raw probe result; anything but the two recognized literals
/// is unrecognized.
pub fn parse_probe_reply(raw: &String) -> (r: Option<ProbeReply>)
    ensures
        r == spec_parse_probe_reply(raw@),
{
    let loaded = String::from_str("\"loaded\"");
    let not_loaded = String::from_str("\"not_loaded\"");
    if loaded == *raw {
        Some(ProbeReply::Loaded)
    } else if not_loaded == *raw {
        Some(ProbeReply::NotLoaded)
    } else {
        None
    }
}

/// The live state of one binding handshake: the target name, how many
/// registration attempts have run, and whether a probe has confirmed the
/// binding yet. Terminal once bound.
pub struct BindingHandshake {
    name: String,
    registrations: u64,
    bound: bool,
}

impl BindingHandshake {
    pub closed spec fn name_view(self) -> Seq<char> {
        self.name@
    }

    /// How many times the object has been registered so far.
    pub closed spec fn registrations(self) -> int {
        self.registrations as int
    }

    /// True once a probe has seen the binding; the completion continuation
    /// runs at that transition and never again.
    pub closed spec fn is_bound(self) -> bool {
        self.bound
    }

    /// Starts the protocol: the caller registers the object under `name`
    /// (the first attempt) and injects the probe script.
    pub fn begin(name: String) -> (h: BindingHandshake)
        ensures
            h.name_view() == name@,
            h.registrations() == 1,
            !h.is_bound(),
    {
        BindingHandshake { name, registrations: 1, bound: false }
    }

    /// How many registration attempts have run, as the driver reads it.
    pub fn registration_count(&self) -> (n: u64)
        ensures
            n == self.registrations(),
    {
        self.registrations
    }

    /// Whether a probe has confirmed the binding.
    pub fn bound(&self) -> (b: bool)
        ensures
            b == self.is_bound(),
    {
        self.bound
    }

    /// The probe expression to inject for this binding.
    pub fn probe(&self) -> (r: String)
        ensures
            r@ == probe_script(self.name_view()),
    {
        check_loaded(self.name.as_str())
    }

    /// Feeds one decoded probe reply into the protocol. `Loaded` completes
    /// the handshake — the caller invokes the continuation now, exactly
    /// once, since a bound handshake accepts no further replies. `NotLoaded`
    /// counts one more registration: the caller re-registers and re-probes.
    pub fn step(&mut self, reply: ProbeReply) -> (s: BindStep)
        requires
            !old(self).is_bound(),
            old(self).registrations() < u64::MAX,
        ensures
            final(self).name_view() == old(self).name_view(),
            reply is Loaded ==> {
                &&& s is Bound
                &&& final(self).is_bound()
                &&& final(self).registrations() == old(self).registrations()
            },
            reply is NotLoaded ==> {
                &&& s is Retry
                &&& !final(self).is_bound()
                &&& final(self).registrations() == old(self).registrations() + 1
            },
    {
        match reply {
            ProbeReply::Loaded => {
                self.bound = true;
                BindStep::Bound
            },
            ProbeReply::NotLoaded => {
                self.registrations = self.registrations + 1;
                BindStep::Retry
            },
        }
    }

    /// Decodes and feeds one raw probe reply. A reply outside the two
    /// recognized literals leaves the handshake untouched and faults.
    pub fn check_bind(&mut self, raw: &String) -> (s: Result<BindStep, HandshakeError>)
        requires
            !old(self).is_bound(),
            old(self).registrations() < u64::MAX,
        ensures
            final(self).name_view() == old(self).name_view(),
            match spec_parse_probe_reply(raw@) {
                Some(reply) => {
                    &&& s is Ok
                    &&& (reply is Loaded ==> s == Ok::<BindStep, HandshakeError>(BindStep::Bound)
                        && final(self).is_bound() && final(self).registrations() == old(
                        self,
                    ).registrations())
                    &&& (reply is NotLoaded ==> s == Ok::<BindStep, HandshakeError>(BindStep::Retry)
                        && !final(self).is_bound() && final(self).registrations() == old(
                        self,
                    ).registrations() + 1)
                },
                None => {
                    &&& s == Err::<BindStep, HandshakeError>(HandshakeError::UnrecognizedReply)
                    &&& *final(self) == *old(self)
                },
            },
    {
        match parse_probe_reply(raw) {
            Some(reply) => Ok(self.step(reply)),
            None => Err(HandshakeError::UnrecognizedReply),
        }
    }
}

/// The registration count the whole protocol is owed for a given reply
/// sequence: one attempt up front, one more per `NotLoaded`, completing at
/// the first `Loaded`; no completion if the probe never reports it.
pub open spec fn spec_ensure_bind(replies: Seq<ProbeReply>) -> Option<int>
    decreases replies.len(),
{
    if replies.len() == 0 {
        None
    } else if replies[0] is Loaded {
        Some(1)
    } else {
        match spec_ensure_bind(replies.skip(1)) {
            Some(k) => Some(k + 1),
            None => None,
        }
    }
}

/// Runs the handshake against a sequence of probe replies: registers,
/// probes, and retries until the probe reports the binding. Returns the
/// number of registration attempts once bound — the point at which the
/// continuation is invoked, exactly once — or `None` when the replies ran
/// out with the binding still unseen.
pub fn ensure_bind(name: String, replies: &Vec<ProbeReply>) -> (r: Option<u64>)
    requires
        replies@.len() < u64::MAX,
    ensures
        match spec_ensure_bind(replies@) {
            Some(k) => r == Some(k as u64),
            None => r is None,
        },
{
    let mut h = BindingHandshake::begin(name);
    let mut i: usize = 0;
    proof {
        assert(replies@.skip(0) =~= replies@);
    }
    while i < replies.len()
        invariant
            0 <= i <= replies@.len(),
            !h.is_bound(),
            h.registrations() == i + 1,
            replies@.len() < u64::MAX,
            forall|j: int| 0 <= j < i ==> replies@[j] is NotLoaded,
            spec_ensure_bind(replies@) == match spec_ensure_bind(replies@.skip(i as int)) {
                Some(k) => Some(k + i),
                None => None::<int>,
            },
        decreases replies@.len() - i,
    {
        let reply = replies[i];
        match h.step(reply) {
            BindStep::Bound => {
                proof {
                    assert(replies@.skip(i as int)[0] == replies@[i as int]);
                }
                return Some(i as u64 + 1);
            },
            BindStep::Retry => {
                proof {
                    assert(replies@.skip(i as int)[0] == replies@[i as int]);
                    assert(replies@.skip(i as int).skip(1) =~= replies@.skip(i as int + 1));
                }
                i = i + 1;
            },
        }
    }
    proof {
        assert(replies@.skip(i as int).len() == 0);
    }
    None
}

/// A probe that reports "not loaded" exactly `n` times and then "loaded"
/// makes the handshake invoke its continuation exactly once, after exactly
/// `n + 1` registration attempts.
pub proof fn lemma_bind_after_n_retries(replies: Seq<ProbeReply>, n: int)
    requires
        0 <= n,
        replies.len() == n + 1,
        forall|j: int| 0 <= j < n ==> replies[j] is NotLoaded,
        replies[n] is Loaded,
    ensures
        spec_ensure_bind(replies) == Some(n + 1),
    decreases n,
{
    if n == 0 {
        assert(replies[0] is Loaded);
    } else {
        assert(replies[0] is NotLoaded);
        lemma_bind_after_n_retries(replies.skip(1), n - 1);
    }
}

} // verus!
