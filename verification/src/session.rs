//! The recording session: the shared state that request handlers and the
//! capture loop synchronize on, and the loop's own state machine.
//!
//! A session owns the `active` flag, the last completed cycle's outputs, the
//! conversation history, and the log channel. The capture loop drives one
//! cycle at a time through the step functions below: each suspension point
//! of the real loop (the capture subprocess, the transcription call, the
//! summarization call) runs outside, and hands its outcome back as a plain
//! value. The step functions decide everything else and are verified against
//! the transition functions `spec_start`, `spec_stop` and `spec_begin_cycle`
//! and the postconditions of the per-stage steps.

use vstd::prelude::*;

use crate::channel::ChannelEvent;
use crate::channel::ChannelModel;
use crate::channel::LogChannel;
use crate::channel::SUBSCRIBER_BUFFER;
use crate::channel::SubscriberModel;
use crate::channel::spec_emit;
use crate::channel::wf_channel;
use crate::clock::now_rfc3339;
use crate::context::ChatMessage;
use crate::context::build_context;
use crate::context::context_of;
use crate::context::messages_model;
use crate::history::ConversationHistory;
use crate::history::EntryModel;
use crate::history::HISTORY_CAP;
use crate::history::Role;
use crate::history::capped;
use crate::record::LogRecord;
use crate::record::RecordModel;
use crate::record::Source;

verus! {

/// Seconds of audio captured per chunk.
pub const CHUNK_SECONDS: u32 = 5;

/// What `start` reports: a fresh capture loop was handed the session, or one
/// was already running.
#[derive(Clone, Copy, PartialEq, Eq, Structural, Debug)]
pub enum StartOutcome {
    Started,
    AlreadyActive,
}

/// Where the capture loop stands.
///
/// `Idle` means no loop owns the session; `Ready` that a loop owns it and
/// stands between cycles; the three awaiting phases that one stage of a
/// cycle runs outside right now.
#[derive(Clone, Copy, PartialEq, Eq, Structural, Debug)]
pub enum Phase {
    Idle,
    Ready,
    AwaitCapture,
    AwaitTranscription,
    AwaitSummary,
}

/// What the loop must do next after a step.
#[derive(Clone, Copy, PartialEq, Eq, Structural, Debug)]
pub enum Action {
    Capture,
    Transcribe,
    Summarize,
    Continue,
    Exit,
}

/// A cycle is in flight while one of its stages runs outside.
pub open spec fn in_cycle(p: Phase) -> bool {
    p is AwaitCapture || p is AwaitTranscription || p is AwaitSummary
}

/// The mathematical value of a session.
#[verifier::ext_equal]
pub struct SessionModel {
    pub active: bool,
    pub last_transcript: Seq<char>,
    pub last_response: Seq<char>,
    pub history: Seq<EntryModel>,
    pub channel: ChannelModel,
    pub phase: Phase,
    pub pending_transcript: Seq<char>,
    pub cycles_begun: nat,
    pub cycles_done: nat,
}

/// Session invariant: the history respects its cap, the channel its own
/// invariant, and at most one cycle is ever in flight — the number of cycles
/// begun exceeds the number completed exactly while one is running.
pub open spec fn wf_session(s: SessionModel) -> bool {
    &&& s.history.len() <= HISTORY_CAP
    &&& wf_channel(s.channel)
    &&& s.cycles_begun == s.cycles_done + (if in_cycle(s.phase) {
        1nat
    } else {
        0nat
    })
}

/// The start operation: if a loop is already active nothing changes, else
/// the session becomes active and, when no earlier loop is still winding
/// down, a fresh loop takes it at `Ready`.
pub open spec fn spec_start(s: SessionModel) -> (SessionModel, StartOutcome) {
    if s.active {
        (s, StartOutcome::AlreadyActive)
    } else {
        (
            SessionModel {
                active: true,
                phase: if s.phase is Idle {
                    Phase::Ready
                } else {
                    s.phase
                },
                ..s
            },
            StartOutcome::Started,
        )
    }
}

/// The stop operation: clears `active` and touches nothing else; an
/// in-flight cycle is never interrupted.
pub open spec fn spec_stop(s: SessionModel) -> SessionModel {
    SessionModel { active: false, ..s }
}

/// The checkpoint before a new cycle: when the session is no longer active
/// the loop exits without starting one; otherwise a new cycle begins.
pub open spec fn spec_begin_cycle(s: SessionModel) -> (SessionModel, Action) {
    if !s.active {
        (SessionModel { phase: Phase::Idle, ..s }, Action::Exit)
    } else {
        (
            SessionModel {
                phase: Phase::AwaitCapture,
                cycles_begun: (s.cycles_begun + 1) as nat,
                ..s
            },
            Action::Capture,
        )
    }
}

/// The capture stage's outcome: on success the cycle moves on to
/// transcription; on failure the cycle — and with it the loop — ends,
/// leaving `active` untouched.
pub open spec fn spec_on_capture(s: SessionModel, captured: bool) -> (SessionModel, Action) {
    if captured {
        (SessionModel { phase: Phase::AwaitTranscription, ..s }, Action::Transcribe)
    } else {
        (
            SessionModel { phase: Phase::Idle, cycles_done: (s.cycles_done + 1) as nat, ..s },
            Action::Exit,
        )
    }
}

/// The transcription stage's outcome: on success the transcript joins the
/// history as a user entry (empty text included) and summarization is next;
/// on failure the cycle and the loop end, `active` untouched.
pub open spec fn spec_on_transcription(s: SessionModel, transcript: Option<Seq<char>>) -> (
    SessionModel,
    Action,
) {
    match transcript {
        Option::Some(t) => (
            SessionModel {
                history: capped(s.history.push(EntryModel { role: Role::User, text: t })),
                phase: Phase::AwaitSummary,
                pending_transcript: t,
                ..s
            },
            Action::Summarize,
        ),
        Option::None => (
            SessionModel { phase: Phase::Idle, cycles_done: (s.cycles_done + 1) as nat, ..s },
            Action::Exit,
        ),
    }
}

/// The recording session and its capture-loop state machine.
pub struct Session {
    active: bool,
    last_transcript: String,
    last_response: String,
    history: ConversationHistory,
    channel: LogChannel,
    phase: Phase,
    pending_transcript: String,
    cycles_begun: Ghost<nat>,
    cycles_done: Ghost<nat>,
}

impl View for Session {
    type V = SessionModel;

    closed spec fn view(&self) -> SessionModel {
        SessionModel {
            active: self.active,
            last_transcript: self.last_transcript@,
            last_response: self.last_response@,
            history: self.history@,
            channel: self.channel@,
            phase: self.phase,
            pending_transcript: self.pending_transcript@,
            cycles_begun: self.cycles_begun@,
            cycles_done: self.cycles_done@,
        }
    }
}

impl Session {
    /// A fresh idle session: nothing recorded, empty history, an empty log
    /// with no subscribers.
    pub fn new() -> (s: Session)
        ensures
            s@.active == false,
            s@.phase is Idle,
            s@.last_transcript == Seq::<char>::empty(),
            s@.last_response == Seq::<char>::empty(),
            s@.history == Seq::<EntryModel>::empty(),
            s@.channel.log == Seq::<RecordModel>::empty(),
            s@.channel.subs == Seq::<SubscriberModel>::empty(),
            s@.cycles_begun == 0,
            s@.cycles_done == 0,
            wf_session(s@),
    {
        Session {
            active: false,
            last_transcript: String::new(),
            last_response: String::new(),
            history: ConversationHistory::new(),
            channel: LogChannel::new(SUBSCRIBER_BUFFER),
            phase: Phase::Idle,
            pending_transcript: String::new(),
            cycles_begun: Ghost(0),
            cycles_done: Ghost(0),
        }
    }

    /// Whether a capture loop currently owns the session.
    pub fn is_active(&self) -> (a: bool)
        ensures
            a == self@.active,
    {
        self.active
    }

    /// Where the capture loop stands right now.
    pub fn phase(&self) -> (p: Phase)
        ensures
            p == self@.phase,
    {
        self.phase
    }

    /// Starts a session: reports `AlreadyActive` and does nothing when one
    /// is active; otherwise marks the session active and hands it to exactly
    /// one capture loop. It returns at once, never waiting for a cycle.
    pub fn start(&mut self) -> (outcome: StartOutcome)
        requires
            wf_session(old(self)@),
        ensures
            (final(self)@, outcome) == spec_start(old(self)@),
            wf_session(final(self)@),
    {
        if self.active {
            StartOutcome::AlreadyActive
        } else {
            self.active = true;
            if self.phase == Phase::Idle {
                self.phase = Phase::Ready;
            }
            proof {
                assert(self@ =~= spec_start(old(self)@).0);
            }
            StartOutcome::Started
        }
    }

    /// Stops the session: clears `active` and returns at once. An in-flight
    /// cycle is not interrupted; the loop exits at its next checkpoint.
    pub fn stop(&mut self)
        requires
            wf_session(old(self)@),
        ensures
            final(self)@ == spec_stop(old(self)@),
            wf_session(final(self)@),
    {
        self.active = false;
        proof {
            assert(self@ =~= spec_stop(old(self)@));
        }
    }

    /// A snapshot of the last completed cycle's transcript and response.
    pub fn read_state(&self) -> (r: (String, String))
        ensures
            r.0@ == self@.last_transcript,
            r.1@ == self@.last_response,
    {
        (self.last_transcript.clone(), self.last_response.clone())
    }

    /// The loop's checkpoint before each cycle: exits when the session is no
    /// longer active, else begins the next cycle with a capture.
    pub fn begin_cycle(&mut self) -> (a: Action)
        requires
            wf_session(old(self)@),
            old(self)@.phase is Ready,
        ensures
            (final(self)@, a) == spec_begin_cycle(old(self)@),
            wf_session(final(self)@),
    {
        if !self.active {
            self.phase = Phase::Idle;
            proof {
                assert(self@ =~= spec_begin_cycle(old(self)@).0);
            }
            Action::Exit
        } else {
            self.phase = Phase::AwaitCapture;
            proof {
                self.cycles_begun@ = self.cycles_begun@ + 1;
            }
            proof {
                assert(self@ =~= spec_begin_cycle(old(self)@).0);
            }
            Action::Capture
        }
    }

    /// The capture stage's outcome. A failed capture aborts the cycle — no
    /// record is produced for the attempt — and ends the loop without
    /// clearing `active`.
    pub fn on_capture(&mut self, captured: bool) -> (a: Action)
        requires
            wf_session(old(self)@),
            old(self)@.phase is AwaitCapture,
        ensures
            (final(self)@, a) == spec_on_capture(old(self)@, captured),
            wf_session(final(self)@),
    {
        if captured {
            self.phase = Phase::AwaitTranscription;
            proof {
                assert(self@ =~= spec_on_capture(old(self)@, captured).0);
            }
            Action::Transcribe
        } else {
            self.phase = Phase::Idle;
            proof {
                self.cycles_done@ = self.cycles_done@ + 1;
            }
            proof {
                assert(self@ =~= spec_on_capture(old(self)@, captured).0);
            }
            Action::Exit
        }
    }

    /// The transcription stage's outcome. On success the transcript joins
    /// the history as this cycle's user entry and the returned messages are
    /// the full context window for summarization; on failure the cycle and
    /// the loop end. A successful but empty transcript is valid and
    /// proceeds.
    pub fn on_transcription(&mut self, transcript: Option<String>) -> (r: (Action, Vec<ChatMessage>))
        requires
            wf_session(old(self)@),
            old(self)@.phase is AwaitTranscription,
        ensures
            (final(self)@, r.0) == spec_on_transcription(
                old(self)@,
                match transcript {
                    Option::Some(t) => Option::Some(t@),
                    Option::None => Option::None,
                },
            ),
            r.0 is Summarize ==> messages_model(r.1@) == context_of(final(self)@.history),
            r.0 is Exit ==> r.1@.len() == 0,
            wf_session(final(self)@),
    {
        match transcript {
            Option::Some(t) => {
                self.pending_transcript = t.clone();
                self.history.push(Role::User, t);
                self.phase = Phase::AwaitSummary;
                let msgs = build_context(&self.history);
                proof {
                    assert(self@ =~= spec_on_transcription(
                        old(self)@,
                        Option::Some(self.pending_transcript@),
                    ).0);
                }
                (Action::Summarize, msgs)
            },
            Option::None => {
                self.phase = Phase::Idle;
                proof {
                    self.cycles_done@ = self.cycles_done@ + 1;
                }
                proof {
                    assert(self@ =~= spec_on_transcription(old(self)@, Option::None).0);
                }
                (Action::Exit, Vec::new())
            },
        }
    }

    /// The summarization stage's outcome, completing the cycle.
    ///
    /// On success the response joins the history as this cycle's assistant
    /// entry; two records — the transcript tagged `capture`, then the
    /// response tagged `assistant`, each freshly timestamped — are emitted
    /// through the channel, durably appended before being broadcast, the
    /// transcript record first; only after both does the session state
    /// expose the new transcript and response. The two records are returned
    /// for the caller to persist and forward, in emission order. The loop
    /// continues only if the session is still active.
    ///
    /// On failure the cycle and the loop end; the history keeps its unpaired
    /// user entry, which is a valid state.
    pub fn on_summary(&mut self, response: Option<String>) -> (r: (Action, Vec<LogRecord>))
        requires
            wf_session(old(self)@),
            old(self)@.phase is AwaitSummary,
        ensures
            wf_session(final(self)@),
            final(self)@.cycles_begun == old(self)@.cycles_begun,
            final(self)@.cycles_done == old(self)@.cycles_done + 1,
            final(self)@.active == old(self)@.active,
            response is None ==> ({
                &&& final(self)@ == (SessionModel {
                    phase: Phase::Idle,
                    cycles_done: (old(self)@.cycles_done + 1) as nat,
                    ..old(self)@
                })
                &&& r.0 is Exit
                &&& r.1@.len() == 0
            }),
            response matches Some(resp) ==> ({
                let s = old(self)@;
                let ns = final(self)@;
                &&& ns.history == capped(
                    s.history.push(EntryModel { role: Role::Assistant, text: resp@ }),
                )
                &&& r.1@.len() == 2
                &&& r.1@[0]@.source == Source::Capture
                &&& r.1@[0]@.text == s.pending_transcript
                &&& r.1@[1]@.source == Source::Assistant
                &&& r.1@[1]@.text == resp@
                &&& ns.channel == spec_emit(spec_emit(s.channel, r.1@[0]@), r.1@[1]@)
                &&& ns.last_transcript == s.pending_transcript
                &&& ns.last_response == resp@
                &&& ns.pending_transcript == s.pending_transcript
                &&& (s.active ==> ns.phase is Ready && r.0 is Continue)
                &&& (!s.active ==> ns.phase is Idle && r.0 is Exit)
            }),
    {
        match response {
            Option::Some(resp) => {
                self.history.push(Role::Assistant, resp.clone());
                let rec1 = LogRecord {
                    timestamp: now_rfc3339(),
                    source: Source::Capture,
                    text: self.pending_transcript.clone(),
                };
                let out1 = rec1.duplicate();
                self.channel.emit(rec1);
                let rec2 = LogRecord {
                    timestamp: now_rfc3339(),
                    source: Source::Assistant,
                    text: resp.clone(),
                };
                let out2 = rec2.duplicate();
                self.channel.emit(rec2);
                self.last_transcript = self.pending_transcript.clone();
                self.last_response = resp;
                let mut records: Vec<LogRecord> = Vec::new();
                records.push(out1);
                records.push(out2);
                proof {
                    self.cycles_done@ = self.cycles_done@ + 1;
                }
                if self.active {
                    self.phase = Phase::Ready;
                    (Action::Continue, records)
                } else {
                    self.phase = Phase::Idle;
                    (Action::Exit, records)
                }
            },
            Option::None => {
                self.phase = Phase::Idle;
                proof {
                    self.cycles_done@ = self.cycles_done@ + 1;
                }
                proof {
                    assert(self@ =~= (SessionModel {
                        phase: Phase::Idle,
                        cycles_done: (old(self)@.cycles_done + 1) as nat,
                        ..old(self)@
                    }));
                }
                (Action::Exit, Vec::new())
            },
        }
    }

    /// Registers a live subscriber on the session's log channel.
    pub fn subscribe(&mut self) -> (id: usize)
        requires
            wf_session(old(self)@),
        ensures
            id == old(self)@.channel.subs.len(),
            final(self)@.channel.log == old(self)@.channel.log,
            final(self)@.channel.subs == old(self)@.channel.subs.push(
                SubscriberModel { pending: Seq::empty(), lagged: 0 },
            ),
            final(self)@ == (SessionModel { channel: final(self)@.channel, ..old(self)@ }),
            wf_session(final(self)@),
    {
        let id = self.channel.subscribe();
        proof {
            assert(final_fields_hold(old(self)@, self@));
        }
        id
    }

    /// Takes the next event for a subscriber of the session's log channel.
    pub fn next_event(&mut self, id: usize) -> (ev: Option<ChannelEvent>)
        requires
            wf_session(old(self)@),
            id < old(self)@.channel.subs.len(),
        ensures
            final(self)@ == (SessionModel { channel: final(self)@.channel, ..old(self)@ }),
            final(self)@.channel.log == old(self)@.channel.log,
            final(self)@.channel.subs.len() == old(self)@.channel.subs.len(),
            forall|j: int|
                0 <= j < old(self)@.channel.subs.len() && j != id ==> final(self)@.channel.subs[j]
                    == old(self)@.channel.subs[j],
            ({
                let s = old(self)@.channel.subs[id as int];
                let ns = final(self)@.channel.subs[id as int];
                if s.lagged > 0 {
                    &&& ev matches Some(ChannelEvent::Lagged(n)) && n == s.lagged
                    &&& ns.pending == s.pending
                    &&& ns.lagged == 0
                } else if s.pending.len() > 0 {
                    &&& ev matches Some(ChannelEvent::Record(r)) && r@ == s.pending[0] && old(
                        self,
                    )@.channel.log.contains(r@)
                    &&& ns.pending == s.pending.skip(1)
                    &&& ns.lagged == 0
                } else {
                    &&& ev is None
                    &&& ns == s
                }
            }),
            wf_session(final(self)@),
    {
        let ev = self.channel.next_event(id);
        proof {
            assert(final_fields_hold(old(self)@, self@));
        }
        ev
    }

    /// Number of records in the session's durable log.
    pub fn log_len(&self) -> (n: usize)
        ensures
            n == self@.channel.log.len(),
    {
        self.channel.log_len()
    }

    /// The record at position `i` of the session's durable log.
    pub fn log_record(&self, i: usize) -> (r: &LogRecord)
        requires
            i < self@.channel.log.len(),
        ensures
            r@ == self@.channel.log[i as int],
    {
        self.channel.record(i)
    }
}

/// Everything outside the channel is unchanged.
spec fn final_fields_hold(s: SessionModel, ns: SessionModel) -> bool {
    ns == (SessionModel { channel: ns.channel, ..s })
}

/// Idempotent start: after any start, a second start with no intervening
/// stop reports `AlreadyActive` and changes nothing at all — in particular
/// it hands the session to no second capture loop.
pub proof fn lemma_start_idempotent(s: SessionModel)
    ensures
        spec_start(s).0.active,
        spec_start(spec_start(s).0) == (spec_start(s).0, StartOutcome::AlreadyActive),
{
}

/// No overlapping cycles: in a well-formed session at most one cycle is in
/// flight, and a new cycle can begin only from the between-cycles
/// checkpoint, where every cycle begun earlier has completed.
pub proof fn lemma_no_overlapping_cycles(s: SessionModel)
    requires
        wf_session(s),
    ensures
        s.cycles_done <= s.cycles_begun <= s.cycles_done + 1,
        s.phase is Ready ==> s.cycles_begun == s.cycles_done,
        spec_begin_cycle(s).1 is Capture ==> spec_begin_cycle(s).0.cycles_begun == s.cycles_begun
            + 1,
{
}

/// Stop is honored: stopping clears `active` at once without touching the
/// in-flight phase, and the loop's next between-cycles checkpoint exits
/// without beginning another cycle.
pub proof fn lemma_stop_honored(s: SessionModel)
    requires
        wf_session(s),
    ensures
        spec_stop(s).active == false,
        spec_stop(s).phase == s.phase,
        spec_begin_cycle(spec_stop(s)).1 is Exit,
        spec_begin_cycle(spec_stop(s)).0.cycles_begun == s.cycles_begun,
        spec_begin_cycle(spec_stop(s)).0.phase is Idle,
{
}

} // verus!
