//! Progress notifications of a model installation and the line shown for
//! each.

use vstd::prelude::*;
use vstd::string::*;
use crate::decimal::{decimal, decimal_text};

verus! {

/// One notification of a running installation: a status text and, where the
/// service reports them, the byte counters.
#[derive(Clone, Debug, PartialEq, Eq)]
pub struct PullProgress {
    pub message: String,
    pub total: Option<u64>,
    pub completed: Option<u64>,
}

/// The abstract value of a [`PullProgress`].
pub struct PullProgressView {
    pub message: Seq<char>,
    pub total: Option<nat>,
    pub completed: Option<nat>,
}

impl View for PullProgress {
    type V = PullProgressView;

    open spec fn view(&self) -> PullProgressView {
        PullProgressView {
            message: self.message@,
            total: match self.total {
                Some(t) => Some(t as nat),
                None => None,
            },
            completed: match self.completed {
                Some(c) => Some(c as nat),
                None => None,
            },
        }
    }
}

/// The text of the line shown for a notification: the status and a space,
/// followed by `completed/total` where both counters are present.
pub open spec fn progress_text(p: PullProgressView) -> Seq<char> {
    match (p.total, p.completed) {
        (Some(t), Some(c)) => p.message + seq![' '] + decimal_text(c) + seq!['/'] + decimal_text(
            t,
        ),
        _ => p.message + seq![' '],
    }
}

impl PullProgress {
    /// The line shown for this notification, without its line end.
    pub fn line(&self) -> (line: String)
        ensures
            line@ == progress_text(self@),
    {
        proof {
            reveal_strlit(" ");
            reveal_strlit("/");
        }
        let mut line: String = self.message.clone();
        line.append(" ");
        assert(line@ =~= self.message@ + seq![' ']);
        match (self.total, self.completed) {
            (Some(t), Some(c)) => {
                let done: String = decimal(c);
                let whole: String = decimal(t);
                line.append(done.as_str());
                line.append("/");
                line.append(whole.as_str());
                assert(line@ =~= self.message@ + seq![' '] + decimal_text(c as nat) + seq!['/']
                    + decimal_text(t as nat));
            },
            _ => {},
        }
        line
    }
}

} // verus!
