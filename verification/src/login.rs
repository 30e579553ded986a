//! The OAuth Device Flow: starting it, and polling GitHub until the user has
//! approved the code, refused it, or the code has expired.

use vstd::prelude::*;
use crate::text::same_text;

verus! {

/// Whether an HTTP status is a success (2xx).
pub open spec fn is_success(status: u16) -> bool {
    200 <= status <= 299
}

/// The error of a refused device-code request, or nothing when GitHub
/// accepted it. `status_text` is the status as it is displayed (`400 Bad Request`).
pub fn device_code_refusal(status: u16, status_text: &str) -> (r: Option<String>)
    ensures
        is_success(status) ==> r is None,
        !is_success(status) ==> (r matches Some(m) && m@ == "GitHub ha rifiutato l'avvio del login ("@
            + status_text@ + ")"@),
{
    if 200 <= status && status <= 299 {
        None
    } else {
        let mut m = String::from_str("GitHub ha rifiutato l'avvio del login (");
        m.append(status_text);
        m.append(")");
        Some(m)
    }
}

/// The larger of a poll interval and one second.
pub open spec fn poll_wait(interval: u64) -> u64 {
    if interval < 1 {
        1
    } else {
        interval
    }
}

/// How many polls fit in the lifetime of the code, and at least one.
pub open spec fn poll_attempts(interval: u64, expires_in: u64) -> u64 {
    let n = expires_in / poll_wait(interval);
    if n < 1 {
        1
    } else {
        n
    }
}

/// What the app does next in the sign-in.
pub enum LoginStep {
    /// Wait this many seconds, then ask GitHub for the token and hand its reply to `on_reply`.
    PollAfter(u64),
    /// Store this token; the sign-in has succeeded.
    Store(String),
    /// The sign-in has failed with this message.
    Fail(String),
}

/// The state of a sign-in: how many polls may be made, how many replies have
/// come, and how long to wait before the next poll.
pub struct DeviceLogin {
    attempts: u64,
    polls: u64,
    wait: u64,
    finished: bool,
}

/// The reply carries the given `error` code and no token.
pub open spec fn reply_error_is(access_token: Option<String>, error: Option<String>, code: Seq<char>) -> bool {
    &&& access_token is None
    &&& error matches Some(e) && e@ == code
}

impl DeviceLogin {
    /// The number of polls the sign-in may make.
    pub closed spec fn attempts(&self) -> u64 {
        self.attempts
    }

    /// The number of replies handled so far.
    pub closed spec fn polls(&self) -> u64 {
        self.polls
    }

    /// The wait before the next poll, in seconds.
    pub closed spec fn wait(&self) -> u64 {
        self.wait
    }

    /// Whether the sign-in has ended.
    pub closed spec fn finished(&self) -> bool {
        self.finished
    }

    /// The sign-in's invariant: at least one poll, never more replies than polls.
    #[verifier::type_invariant]
    closed spec fn wf(&self) -> bool {
        &&& self.attempts >= 1
        &&& self.polls <= self.attempts
        &&& self.wait >= 1
        &&& !self.finished ==> self.polls < self.attempts
    }

    /// Starts polling for the code GitHub gave: the first poll comes after
    /// the interval (at least one second).
    pub fn start(interval: u64, expires_in: u64) -> (r: (DeviceLogin, LoginStep))
        ensures
            !r.0.finished(),
            r.0.polls() < r.0.attempts(),
            r.0.attempts() == poll_attempts(interval, expires_in),
            r.0.polls() == 0,
            r.0.wait() == poll_wait(interval),
            r.1 == LoginStep::PollAfter(poll_wait(interval)),
    {
        let wait = if interval < 1 {
            1
        } else {
            interval
        };
        let n = expires_in / wait;
        let attempts = if n < 1 {
            1
        } else {
            n
        };
        (DeviceLogin { attempts, polls: 0, wait, finished: false }, LoginStep::PollAfter(wait))
    }

    /// Handles GitHub's reply to a poll (its `access_token` and `error`
    /// fields, when they are strings). A token ends the sign-in; so do the
    /// codes `access_denied`, `expired_token` and any unknown code;
    /// `authorization_pending` and no code at all poll again; `slow_down` polls
    /// again five seconds later than before. When no poll is left, the sign-in
    /// has timed out.
    pub fn on_reply(&mut self, access_token: Option<String>, error: Option<String>) -> (r: LoginStep)
        requires
            !old(self).finished(),
            reply_error_is(access_token, error, "slow_down"@) ==> old(self).wait() + 5 <= u64::MAX,
        ensures
            final(self).attempts() == old(self).attempts(),
            final(self).polls() <= final(self).attempts(),
            !final(self).finished() ==> final(self).polls() < final(self).attempts(),
            final(self).polls() == old(self).polls() + 1,
            final(self).wait() == if reply_error_is(access_token, error, "slow_down"@) {
                old(self).wait() + 5
            } else {
                old(self).wait() as int
            },
            final(self).finished() == !(r is PollAfter),
            r is PollAfter ==> r == LoginStep::PollAfter(final(self).wait()),
            match access_token {
                Some(t) => r matches LoginStep::Store(s) && s@ == t@,
                None => match error {
                    Some(e) => if e@ == "authorization_pending"@ || e@ == "slow_down"@ {
                        if final(self).polls() < final(self).attempts() {
                            r is PollAfter
                        } else {
                            r matches LoginStep::Fail(m) && m@
                                == "Tempo scaduto. Avvia nuovamente l'accesso."@
                        }
                    } else if e@ == "access_denied"@ {
                        r matches LoginStep::Fail(m) && m@ == "Accesso annullato su GitHub."@
                    } else if e@ == "expired_token"@ {
                        r matches LoginStep::Fail(m) && m@ == "Il codice è scaduto. Riprova."@
                    } else {
                        r matches LoginStep::Fail(m) && m@ == "Login GitHub non riuscito: "@ + e@
                    },
                    None => if final(self).polls() < final(self).attempts() {
                        r is PollAfter
                    } else {
                        r matches LoginStep::Fail(m) && m@
                            == "Tempo scaduto. Avvia nuovamente l'accesso."@
                    },
                },
            },
    {
        proof {
            reveal_strlit("authorization_pending");
            reveal_strlit("slow_down");
            reveal_strlit("access_denied");
            reveal_strlit("expired_token");
            use_type_invariant(&*self);
        }
        let attempts = self.attempts;
        let polls = self.polls + 1;
        let mut wait = self.wait;
        let step = if let Some(t) = access_token {
            LoginStep::Store(t)
        } else {
            let mut outcome: Option<LoginStep> = None;
            match error {
                Some(e) => {
                    if same_text(e.as_str(), "authorization_pending") {
                        assert("authorization_pending"@.len() != "slow_down"@.len());
                    } else if same_text(e.as_str(), "slow_down") {
                        wait = wait + 5;
                    } else if same_text(e.as_str(), "access_denied") {
                        outcome = Some(LoginStep::Fail(String::from_str("Accesso annullato su GitHub.")));
                    } else if same_text(e.as_str(), "expired_token") {
                        outcome = Some(LoginStep::Fail(String::from_str("Il codice è scaduto. Riprova.")));
                    } else {
                        let mut m = String::from_str("Login GitHub non riuscito: ");
                        m.append(e.as_str());
                        outcome = Some(LoginStep::Fail(m));
                    }
                },
                None => {},
            }
            match outcome {
                Some(step) => step,
                None => if polls < attempts {
                    LoginStep::PollAfter(wait)
                } else {
                    LoginStep::Fail(String::from_str("Tempo scaduto. Avvia nuovamente l'accesso."))
                },
            }
        };
        let finished = match &step {
            LoginStep::PollAfter(_) => false,
            _ => true,
        };
        *self = DeviceLogin { attempts, polls, wait, finished };
        step
    }

    /// The wait before the next poll, in seconds.
    pub fn current_wait(&self) -> (r: u64)
        ensures
            r == self.wait(),
    {
        self.wait
    }
}

/// The polls of a sign-in fit in the lifetime of its code (or there is one
/// poll when even one does not fit).
pub proof fn law_attempts_fit(interval: u64, expires_in: u64)
    ensures
        poll_attempts(interval, expires_in) >= 1,
        poll_attempts(interval, expires_in) == 1 || poll_attempts(interval, expires_in) * poll_wait(interval) <= expires_in,
{
    let w = poll_wait(interval);
    let n = expires_in / w;
    assert(n * w <= expires_in) by (nonlinear_arith)
        requires
            w >= 1,
            n == expires_in / w,
    ;
}

} // verus!
