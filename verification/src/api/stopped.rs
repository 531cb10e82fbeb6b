//! The cancellation tokens that were made, and those of them that were cancelled.
use tokio_util::sync::CancellationToken;
use vstd::prelude::*;

verus! {

/// The token of `tokio_util` that stops a task. Clones of a token are the same token: what
/// cancels one cancels all.
#[verifier::external_type_specification]
#[verifier::external_body]
pub struct ExCancellationToken(CancellationToken);

/// A token that was cancelled.
#[derive(Debug)]
pub struct Stopped {
    token: CancellationToken,
}

impl Stopped {
    /// The token that was cancelled.
    pub closed spec fn of(self) -> CancellationToken {
        self.token
    }

    /// The token that was cancelled.
    pub fn token(&self) -> (r: &CancellationToken)
        ensures
            *r == self.of(),
    {
        &self.token
    }
}

/// Calls `CancellationToken::cancel`. Claimed of it: what comes back stands for this very token,
/// cancelled with all its clones. A cancelled token stays cancelled.
#[verifier::external_body]
fn cancel_token(token: CancellationToken) -> (r: Stopped)
    ensures
        r.of() == token,
{
    token.cancel();
    Stopped { token }
}

/// Calls `CancellationToken::new`. Claimed of it: the token is a new one, so none of those that
/// the list holds.
#[verifier::external_body]
fn new_token(_made: &Vec<CancellationToken>) -> (r: CancellationToken)
    ensures
        !_made@.contains(r),
{
    CancellationToken::new()
}

/// Calls `CancellationToken::clone`. Claimed of it: the clone is the same token.
#[verifier::external_body]
pub(crate) fn same_token(token: &CancellationToken) -> (r: CancellationToken)
    ensures
        r == *token,
{
    token.clone()
}

/// Every token that was made, and every one that was cancelled, in the order in which that
/// happened. A token is cancelled only through the log that made it, which keeps it for good.
pub struct TokenLog {
    made: Vec<CancellationToken>,
    stopped: Vec<Stopped>,
}

/// What a [`TokenLog`] holds.
pub struct Tokens {
    pub made: Seq<CancellationToken>,
    pub stopped: Seq<CancellationToken>,
}

impl View for TokenLog {
    type V = Tokens;

    closed spec fn view(&self) -> Tokens {
        Tokens { made: self.made@, stopped: self.stopped@.map_values(|s: Stopped| s.of()) }
    }
}

impl TokenLog {
    /// A log without tokens.
    pub(crate) fn new() -> (r: TokenLog)
        ensures
            r@ == (Tokens { made: Seq::empty(), stopped: Seq::empty() }),
    {
        let r = TokenLog { made: Vec::new(), stopped: Vec::new() };
        assert(r@.stopped =~= Seq::empty());
        r
    }

    /// Makes a token.
    pub(crate) fn make(&mut self) -> (r: CancellationToken)
        ensures
            !old(self)@.made.contains(r),
            final(self)@ == (Tokens { made: old(self)@.made.push(r), ..old(self)@ }),
    {
        let token = new_token(&self.made);
        self.made.push(same_token(&token));
        token
    }

    /// Cancels a token that was made by this log.
    pub(crate) fn stop(&mut self, token: CancellationToken)
        requires
            old(self)@.made.contains(token),
        ensures
            final(self)@ == (Tokens { stopped: old(self)@.stopped.push(token), ..old(self)@ }),
    {
        let ghost before = self.stopped@;
        self.stopped.push(cancel_token(token));
        assert(self@.stopped =~= before.map_values(|s: Stopped| s.of()).push(token));
    }

    /// The token that was cancelled last, if any was.
    pub fn last_stopped(&self) -> (r: Option<&Stopped>)
        ensures
            r is Some == (self@.stopped.len() > 0),
            r matches Some(stopped) ==> stopped.of() == self@.stopped.last(),
    {
        let n: usize = self.stopped.len();
        if n == 0 {
            None
        } else {
            Some(&self.stopped[n - 1])
        }
    }
}

} // verus!
