//! The decisions of one clean-up run, as a state machine that the caller
//! drives: it performs each step (fetch, limiter check, cool-down, delete)
//! and reports the outcome back as an event.

use crate::error::{ConnectionError, EuleError};
use crate::time::TimeSpan;
use vstd::prelude::*;

verus! {

/// Messages fetched per run.
pub const FETCH_LIMIT: usize = 100;

/// Messages deleted per call of the remote API.
pub const CHUNK_SIZE: usize = 100;

/// Seconds to wait when the limiter refuses a deletion.
pub const COOLDOWN_SECS: u64 = 2;

/// Where a run stands.
#[derive(Clone, Copy, Debug, PartialEq, Eq, Structural)]
pub enum Stage {
    /// Not started.
    Start,
    /// Waiting for the recent messages.
    Fetching,
    /// Waiting for the limiter's answer before the next chunk.
    Checking,
    /// Waiting out the cool-down after a refusal.
    CoolingDown,
    /// Waiting for the current chunk's deletion.
    Deleting,
    /// Completed or failed; takes no more events.
    Finished,
}

/// What the caller reports after performing a step.
#[derive(Clone, Debug)]
pub enum CleanupEvent {
    /// Start the run.
    Begin,
    /// The recent messages, most recent first.
    Fetched(Vec<u64>),
    /// Fetching failed.
    FetchFailed(String),
    /// The limiter admitted (true) or refused (false) the next deletion.
    RateChecked(bool),
    /// The cool-down is over.
    CooledDown,
    /// The current chunk was deleted.
    Deleted,
    /// Deleting the current chunk failed.
    DeleteFailed(String),
}

/// What the caller must do next.
#[derive(Clone, Debug)]
pub enum CleanupStep {
    /// Fetch up to `limit` of the channel's most recent messages.
    Fetch { channel_id: u64, limit: usize },
    /// Ask the limiter whether the next deletion may go ahead.
    CheckRate,
    /// Wait this long, then report `CooledDown`.
    Cooldown(TimeSpan),
    /// Delete these messages of the channel.
    Delete { channel_id: u64, ids: Vec<u64> },
    /// Every chunk was deleted: record the job's run at the current time.
    Complete { guild_id: u64, channel_id: u64, deleted: usize },
    /// The run failed; the job's last run stays as it was.
    Failed(EuleError),
}

/// The end of the chunk that starts at `pos` among `len` messages.
pub open spec fn chunk_end(pos: nat, len: nat) -> nat {
    if pos + CHUNK_SIZE < len {
        (pos + CHUNK_SIZE) as nat
    } else {
        len
    }
}

/// One clean-up run of the job for (guild, channel).
pub struct CleanupRun {
    guild_id: u64,
    channel_id: u64,
    stage: Stage,
    messages: Vec<u64>,
    pos: usize,
}

impl CleanupRun {
    pub closed spec fn spec_guild(&self) -> u64 {
        self.guild_id
    }

    pub closed spec fn spec_channel(&self) -> u64 {
        self.channel_id
    }

    pub closed spec fn spec_stage(&self) -> Stage {
        self.stage
    }

    /// The fetched messages.
    pub closed spec fn spec_messages(&self) -> Seq<u64> {
        self.messages@
    }

    /// How many of the fetched messages are deleted: the next chunk starts
    /// there.
    pub closed spec fn spec_pos(&self) -> nat {
        self.pos as nat
    }

    #[verifier::type_invariant]
    spec fn inv(self) -> bool {
        &&& self.pos <= self.messages@.len()
        &&& (self.stage is Checking || self.stage is CoolingDown || self.stage is Deleting) ==> self.pos
            < self.messages@.len()
    }

    /// A run of the job for (guild_id, channel_id), not yet started.
    pub fn new(guild_id: u64, channel_id: u64) -> (r: CleanupRun)
        ensures
            r.spec_guild() == guild_id,
            r.spec_channel() == channel_id,
            r.spec_stage() == Stage::Start,
            r.spec_pos() == 0,
            r.spec_messages().len() == 0,
    {
        CleanupRun { guild_id, channel_id, stage: Stage::Start, messages: Vec::new(), pos: 0 }
    }

    /// Where the run stands.
    pub fn stage(&self) -> (r: Stage)
        ensures
            r == self.spec_stage(),
    {
        self.stage
    }

    /// The next chunk: the messages from `pos` to its end.
    fn current_chunk(&self) -> (r: Vec<u64>)
        ensures
            r@ == self.spec_messages().subrange(
                self.spec_pos() as int,
                chunk_end(self.spec_pos(), self.spec_messages().len()) as int,
            ),
    {
        proof { use_type_invariant(self); }
        let end = if self.messages.len() - self.pos > CHUNK_SIZE {
            self.pos + CHUNK_SIZE
        } else {
            self.messages.len()
        };
        let mut out: Vec<u64> = Vec::new();
        let mut i: usize = self.pos;
        while i < end
            invariant
                self.pos <= i <= end,
                end <= self.messages@.len(),
                out@ == self.messages@.subrange(self.pos as int, i as int),
            decreases end - i,
        {
            out.push(self.messages[i]);
            i += 1;
        }
        out
    }

    /// Takes the outcome of the last step and says what to do next.
    /// Fetched messages are deleted in chunks, in order, each after a
    /// limiter check; a refusal costs a cool-down, after which the chunk is
    /// deleted anyway. The first failure ends the run. An event that does
    /// not answer the last step ends the run as failed.
    pub fn step(&mut self, event: CleanupEvent) -> (r: CleanupStep)
        ensures
            final(self).spec_guild() == old(self).spec_guild(),
            final(self).spec_channel() == old(self).spec_channel(),
            ({
                let s = *old(self);
                let n = *final(self);
                let g = s.spec_guild();
                let c = s.spec_channel();
                match (s.spec_stage(), event) {
                    (Stage::Start, CleanupEvent::Begin) => n.spec_stage() == Stage::Fetching && (r matches CleanupStep::Fetch { channel_id, limit } && channel_id == c && limit == FETCH_LIMIT),
                    (Stage::Fetching, CleanupEvent::Fetched(ids)) => n.spec_messages() == ids@
                        && n.spec_pos() == 0 && if ids@.len() == 0 {
                        n.spec_stage() == Stage::Finished && (r matches CleanupStep::Complete { guild_id, channel_id, deleted } && guild_id == g && channel_id == c && deleted == 0)
                    } else {
                        n.spec_stage() == Stage::Checking && r is CheckRate
                    },
                    (Stage::Fetching, CleanupEvent::FetchFailed(m)) => n.spec_stage() == Stage::Finished
                        && r == CleanupStep::Failed(EuleError::DiscordApi(m)),
                    (Stage::Checking, CleanupEvent::RateChecked(allowed)) => n.spec_messages() == s.spec_messages() && n.spec_pos() == s.spec_pos() && if allowed {
                        n.spec_stage() == Stage::Deleting && (r matches CleanupStep::Delete { channel_id, ids } && channel_id == c && ids@ == s.spec_messages().subrange(s.spec_pos() as int, chunk_end(s.spec_pos(), s.spec_messages().len()) as int))
                    } else {
                        n.spec_stage() == Stage::CoolingDown && (r matches CleanupStep::Cooldown(d) && d@ == COOLDOWN_SECS * 1_000_000_000)
                    },
                    (Stage::CoolingDown, CleanupEvent::CooledDown) => n.spec_messages() == s.spec_messages() && n.spec_pos() == s.spec_pos() && n.spec_stage() == Stage::Deleting && (r matches CleanupStep::Delete { channel_id, ids } && channel_id == c && ids@ == s.spec_messages().subrange(s.spec_pos() as int, chunk_end(s.spec_pos(), s.spec_messages().len()) as int)),
                    (Stage::Deleting, CleanupEvent::Deleted) => n.spec_messages() == s.spec_messages()
                        && n.spec_pos() == chunk_end(s.spec_pos(), s.spec_messages().len()) && if n.spec_pos() == s.spec_messages().len() {
                        n.spec_stage() == Stage::Finished && (r matches CleanupStep::Complete { guild_id, channel_id, deleted } && guild_id == g && channel_id == c && deleted == s.spec_messages().len())
                    } else {
                        n.spec_stage() == Stage::Checking && r is CheckRate
                    },
                    (Stage::Deleting, CleanupEvent::DeleteFailed(m)) => n.spec_stage() == Stage::Finished
                        && r == CleanupStep::Failed(EuleError::DiscordApi(m)),
                    _ => n.spec_stage() == Stage::Finished && r is Failed,
                }
            }),
    {
        proof { use_type_invariant(&*self); }
        match (self.stage, event) {
            (Stage::Start, CleanupEvent::Begin) => {
                self.stage = Stage::Fetching;
                CleanupStep::Fetch { channel_id: self.channel_id, limit: FETCH_LIMIT }
            },
            (Stage::Fetching, CleanupEvent::Fetched(ids)) => {
                let empty = ids.len() == 0;
                self.pos = 0;
                self.stage = Stage::Finished;
                self.messages = ids;
                if empty {
                    CleanupStep::Complete { guild_id: self.guild_id, channel_id: self.channel_id, deleted: 0 }
                } else {
                    self.stage = Stage::Checking;
                    CleanupStep::CheckRate
                }
            },
            (Stage::Fetching, CleanupEvent::FetchFailed(m)) => {
                self.stage = Stage::Finished;
                CleanupStep::Failed(EuleError::DiscordApi(m))
            },
            (Stage::Checking, CleanupEvent::RateChecked(allowed)) => {
                if allowed {
                    self.stage = Stage::Deleting;
                    CleanupStep::Delete { channel_id: self.channel_id, ids: self.current_chunk() }
                } else {
                    self.stage = Stage::CoolingDown;
                    CleanupStep::Cooldown(TimeSpan::from_secs(COOLDOWN_SECS))
                }
            },
            (Stage::CoolingDown, CleanupEvent::CooledDown) => {
                self.stage = Stage::Deleting;
                CleanupStep::Delete { channel_id: self.channel_id, ids: self.current_chunk() }
            },
            (Stage::Deleting, CleanupEvent::Deleted) => {
                let end = if self.messages.len() - self.pos > CHUNK_SIZE {
                    self.pos + CHUNK_SIZE
                } else {
                    self.messages.len()
                };
                self.stage = Stage::Finished;
                self.pos = end;
                if end == self.messages.len() {
                    CleanupStep::Complete {
                        guild_id: self.guild_id,
                        channel_id: self.channel_id,
                        deleted: self.messages.len(),
                    }
                } else {
                    self.stage = Stage::Checking;
                    CleanupStep::CheckRate
                }
            },
            (Stage::Deleting, CleanupEvent::DeleteFailed(m)) => {
                self.stage = Stage::Finished;
                CleanupStep::Failed(EuleError::DiscordApi(m))
            },
            _ => {
                self.stage = Stage::Finished;
                CleanupStep::Failed(
                    EuleError::Connection(ConnectionError::HandlerError("event does not answer the last step".to_owned())),
                )
            },
        }
    }
}

} // verus!
