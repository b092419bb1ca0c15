//! The human-readable progress messages of the shutdown path.
//!
//! Every notice the coordinator's outcomes give rise to is listed here, with
//! its exact text, so that the runtime only forwards strings it never
//! composes. The decimal rendering of the delay is verified against
//! [`spec_digits`].

use vstd::prelude::*;
use vstd::string::StringExecFns;
use crate::coordinator::{Directive, RequestOutcome, ShutdownError};

verus! {

/// One progress message of the shutdown path.
#[derive(Clone, Copy, PartialEq, Eq, Debug, Structural)]
pub enum Notice {
    /// A previously scheduled shutdown task is being cancelled.
    Aborting,
    /// The terminal disconnect is about to happen.
    ShuttingDownNow,
    /// A delayed shutdown has been scheduled.
    ScheduledIn { minutes: u64 },
    /// The requested delay was outside the accepted range.
    InvalidDelay,
}

/// The decimal digit character for `d` (< 10).
pub open spec fn spec_digit(d: nat) -> char {
    if d == 0 {
        '0'
    } else if d == 1 {
        '1'
    } else if d == 2 {
        '2'
    } else if d == 3 {
        '3'
    } else if d == 4 {
        '4'
    } else if d == 5 {
        '5'
    } else if d == 6 {
        '6'
    } else if d == 7 {
        '7'
    } else if d == 8 {
        '8'
    } else {
        '9'
    }
}

/// The decimal rendering of `n`, most significant digit first, no sign and
/// no leading zero.
pub open spec fn spec_digits(n: nat) -> Seq<char>
    decreases n,
{
    if n < 10 {
        seq![spec_digit(n)]
    } else {
        spec_digits(n / 10) + seq![spec_digit(n % 10)]
    }
}

/// The exact text of each notice.
pub open spec fn notice_text_spec(n: Notice) -> Seq<char> {
    match n {
        Notice::Aborting => "aborting existing shutdown task!"@,
        Notice::ShuttingDownNow => "shutting down..."@,
        Notice::ScheduledIn { minutes } => "shutting down in about "@ + spec_digits(
            minutes as nat,
        ) + " minutes!"@,
        Notice::InvalidDelay => "\"after\" parameter must be in between 1 and 60!"@,
    }
}

/// The notices a request's outcome gives rise to, in emission order: the
/// abort notice for a cancelled task first, then the notice of the request's
/// own path. An ignored request (disconnect already begun) emits nothing.
pub open spec fn notices_spec(out: RequestOutcome) -> Seq<Notice> {
    (if out.aborted is Some {
        seq![Notice::Aborting]
    } else {
        Seq::empty()
    }) + (match out.directive {
        Directive::DisconnectNow => seq![Notice::ShuttingDownNow],
        Directive::Schedule { handle } => seq![
            (Notice::ScheduledIn { minutes: handle.delay_minutes }),
        ],
        Directive::Reject => seq![Notice::InvalidDelay],
        Directive::Ignore => Seq::empty(),
    })
}

/// The one-character string of a decimal digit.
fn digit_str(d: u64) -> (s: &'static str)
    requires
        d < 10,
    ensures
        s@ == seq![spec_digit(d as nat)],
{
    let s: &'static str = match d {
        0 => "0",
        1 => "1",
        2 => "2",
        3 => "3",
        4 => "4",
        5 => "5",
        6 => "6",
        7 => "7",
        8 => "8",
        _ => "9",
    };
    proof {
        reveal_strlit("0");
        reveal_strlit("1");
        reveal_strlit("2");
        reveal_strlit("3");
        reveal_strlit("4");
        reveal_strlit("5");
        reveal_strlit("6");
        reveal_strlit("7");
        reveal_strlit("8");
        reveal_strlit("9");
    }
    s
}

/// Render `n` in decimal.
pub fn decimal_string(n: u64) -> (s: String)
    ensures
        s@ == spec_digits(n as nat),
    decreases n,
{
    if n < 10 {
        digit_str(n).to_owned()
    } else {
        let mut s = decimal_string(n / 10);
        s.append(digit_str(n % 10));
        s
    }
}

/// The text of one notice, exactly as the notifier must receive it.
pub fn notice_text(n: &Notice) -> (s: String)
    ensures
        s@ == notice_text_spec(*n),
{
    match n {
        Notice::Aborting => "aborting existing shutdown task!".to_owned(),
        Notice::ShuttingDownNow => "shutting down...".to_owned(),
        Notice::ScheduledIn { minutes } => {
            let mut s = "shutting down in about ".to_owned();
            let rendered = decimal_string(*minutes);
            s.append(rendered.as_str());
            s.append(" minutes!");
            s
        },
        Notice::InvalidDelay => "\"after\" parameter must be in between 1 and 60!".to_owned(),
    }
}

/// The notices of one request outcome, in emission order.
pub fn notices_for(out: &RequestOutcome) -> (ns: Vec<Notice>)
    ensures
        ns@ == notices_spec(*out),
{
    let mut ns: Vec<Notice> = Vec::new();
    if out.aborted.is_some() {
        ns.push(Notice::Aborting);
    }
    match out.directive {
        Directive::DisconnectNow => ns.push(Notice::ShuttingDownNow),
        Directive::Schedule { handle } => ns.push(
            Notice::ScheduledIn { minutes: handle.delay_minutes },
        ),
        Directive::Reject => ns.push(Notice::InvalidDelay),
        Directive::Ignore => {},
    }
    proof {
        assert(ns@ =~= notices_spec(*out));
    }
    ns
}

impl ShutdownError {
    /// The exact text of each error.
    pub open spec fn text_spec(self) -> Seq<char> {
        match self {
            ShutdownError::InvalidArgument => "\"after\" parameter must be in between 1 and 60!"@,
            ShutdownError::DisconnectFailure => "error disconnecting sessions!"@,
            ShutdownError::SignalListenError => "error registering signal listener!"@,
        }
    }

    /// The text reported for this error.
    pub fn text(&self) -> (s: String)
        ensures
            s@ == self.text_spec(),
    {
        match self {
            ShutdownError::InvalidArgument => "\"after\" parameter must be in between 1 and 60!".to_owned(),
            ShutdownError::DisconnectFailure => "error disconnecting sessions!".to_owned(),
            ShutdownError::SignalListenError => "error registering signal listener!".to_owned(),
        }
    }
}

} // verus!
