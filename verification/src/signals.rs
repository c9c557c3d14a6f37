//! Counting the answers to control signals, and the rounds of the manual
//! control protocol.
use vstd::prelude::*;

verus! {

/// How many rounds of signals a manual control action sends.
pub const MANUAL_RETRY_ATTEMPTS: usize = 15;

/// The pause between two rounds of manual control signals, in milliseconds.
pub const MANUAL_RETRY_INTERVAL_MS: u64 = 1000;

/// The answers to the control signals sent so far: how many succeeded, and
/// the error of the last one that failed.
pub struct SignalTally {
    pub successful_signals: usize,
    pub last_error: Option<String>,
}

impl SignalTally {
    /// No signal answered yet.
    pub fn new() -> (tally: Self)
        ensures
            tally.successful_signals == 0,
            tally.last_error is None,
    {
        SignalTally { successful_signals: 0, last_error: None }
    }

    /// Counts the answer to one signal: a success adds one, a failure
    /// becomes the last error.
    pub fn record(&mut self, answer: Result<(), String>)
        requires
            old(self).successful_signals < usize::MAX,
        ensures
            match answer {
                Ok(_) => {
                    &&& final(self).successful_signals == old(self).successful_signals + 1
                    &&& final(self).last_error == old(self).last_error
                },
                Err(e) => {
                    &&& final(self).successful_signals == old(self).successful_signals
                    &&& final(self).last_error == Some(e)
                },
            },
    {
        match answer {
            Ok(_) => {
                self.successful_signals = self.successful_signals + 1;
            },
            Err(e) => {
                self.last_error = Some(e);
            },
        }
    }
}

/// One manual control action in progress: the action's token, the rounds of
/// signals sent so far, and the answers to them.
pub struct ManualRun {
    pub token: u64,
    pub rounds_completed: usize,
    pub tally: SignalTally,
}

impl ManualRun {
    /// A run of the action with the token `token`, before its first round.
    pub fn new(token: u64) -> (run: Self)
        ensures
            run.token == token,
            run.rounds_completed == 0,
            run.tally.successful_signals == 0,
            run.tally.last_error is None,
    {
        ManualRun { token, rounds_completed: 0, tally: SignalTally::new() }
    }

    /// Whether another round of signals is due.
    pub fn rounds_remain(&self) -> (due: bool)
        ensures
            due == (self.rounds_completed < MANUAL_RETRY_ATTEMPTS),
    {
        self.rounds_completed < MANUAL_RETRY_ATTEMPTS
    }

    /// Counts the answer to one signal of the current round.
    pub fn record_signal(&mut self, answer: Result<(), String>)
        requires
            old(self).tally.successful_signals < usize::MAX,
        ensures
            final(self).token == old(self).token,
            final(self).rounds_completed == old(self).rounds_completed,
            match answer {
                Ok(_) => {
                    &&& final(self).tally.successful_signals == old(
                        self,
                    ).tally.successful_signals + 1
                    &&& final(self).tally.last_error == old(self).tally.last_error
                },
                Err(e) => {
                    &&& final(self).tally.successful_signals
                        == old(self).tally.successful_signals
                    &&& final(self).tally.last_error == Some(e)
                },
            },
    {
        self.tally.record(answer);
    }

    /// Ends the current round; returns whether a pause comes before the next
    /// one, which is so after every round but the last.
    pub fn complete_round(&mut self) -> (pause: bool)
        requires
            old(self).rounds_completed < MANUAL_RETRY_ATTEMPTS,
        ensures
            final(self).rounds_completed == old(self).rounds_completed + 1,
            final(self).token == old(self).token,
            final(self).tally == old(self).tally,
            pause == (final(self).rounds_completed < MANUAL_RETRY_ATTEMPTS),
    {
        self.rounds_completed = self.rounds_completed + 1;
        self.rounds_completed < MANUAL_RETRY_ATTEMPTS
    }
}

} // verus!
