//! The cursor session: one declared server-side cursor and the state machine
//! that pulls its rows batch by batch.
//!
//! The session never talks to the database itself. Each method takes what the
//! database answered and says what to send next; the caller performs the round
//! trip and hands the answer back. At most one fetch is ever outstanding.
use vstd::prelude::*;

use crate::statement::{close_statement, close_text, cursor_name, cursor_name_text,
    declare_statement, declare_text, fetch_statement, fetch_text};

verus! {

/// Where a session stands.
#[derive(Clone, Copy, Debug, PartialEq, Eq, Structural)]
pub enum Phase {
    /// The cursor is declared and no fetch is outstanding.
    Open,
    /// A fetch was sent and its answer has not been handed back yet.
    Fetching,
    /// A fetch came back empty: the cursor has no rows left.
    Exhausted,
    /// A fetch failed: the session fetches no more.
    Failed,
    /// The cursor was closed, or its close was attempted.
    Closed,
}

/// A phase in which pulls produce nothing more.
pub open spec fn is_terminal(p: Phase) -> bool {
    p is Exhausted || p is Failed || p is Closed
}

/// The phase after a pull starts: only an open session sends a fetch.
pub open spec fn phase_after_pull(p: Phase) -> Phase {
    if p is Open {
        Phase::Fetching
    } else {
        p
    }
}

/// The phase after a fetch that returned `n` rows.
pub open spec fn phase_after_fetch(n: nat) -> Phase {
    if n == 0 {
        Phase::Exhausted
    } else {
        Phase::Open
    }
}

/// Whether a pull that starts in `p` sends a fetch.
pub open spec fn pull_sends_fetch(p: Phase) -> bool {
    p is Open
}

/// Whether releasing a session in `p` sends a `CLOSE`.
pub open spec fn close_sends(p: Phase) -> bool {
    !(p is Closed)
}

/// Whether releasing a session in `p` must first drain an outstanding fetch.
pub open spec fn close_drains(p: Phase) -> bool {
    p is Fetching
}

/// What the caller does for a pull.
#[derive(Debug)]
pub enum PullStep {
    /// Send this `FETCH` statement, then hand its answer to `finish_fetch`.
    Fetch(String),
    /// The fetch of an earlier pull is still outstanding: wait for its answer
    /// and hand that to `finish_fetch`. No new statement is sent.
    Await,
    /// The sequence has ended: send nothing.
    End,
}

/// What a pull hands to the consumer.
#[derive(Debug)]
pub enum Pulled<R, E> {
    /// The next rows of the cursor, never an empty batch.
    Batch(Vec<R>),
    /// The end of the sequence.
    End,
    /// The error of the failed fetch, handed out once.
    Failed(E),
}

/// What the caller does to release the cursor.
#[derive(Debug)]
pub enum CloseStep {
    /// Send `statement`. Where `drain_first` holds, a fetch is outstanding:
    /// its answer must be read to the end before anything else is sent on
    /// the connection, or the connection falls out of step.
    Close { drain_first: bool, statement: String },
    /// The close was already attempted: send nothing.
    AlreadyClosed,
}

/// The mathematical value of a session.
pub struct SessionView {
    pub name: Seq<char>,
    pub batch_size: nat,
    pub phase: Phase,
}

/// One declared server-side cursor and where its pulls stand.
pub struct CursorSession {
    name: String,
    batch_size: usize,
    phase: Phase,
}

impl View for CursorSession {
    type V = SessionView;

    closed spec fn view(&self) -> SessionView {
        SessionView { name: self.name@, batch_size: self.batch_size as nat, phase: self.phase }
    }
}

/// The name of the cursor numbered `id` and the statement that declares it
/// over `query`.
pub fn declaration(id: u64, query: &str) -> (r: (String, String))
    ensures
        r.0@ == cursor_name_text(id as nat),
        r.1@ == declare_text(cursor_name_text(id as nat), query@),
{
    let name = cursor_name(id);
    let statement = declare_statement(name.as_str(), query);
    (name, statement)
}

impl CursorSession {
    /// Sessions fetch at least one row at a time.
    pub open spec fn well_formed(&self) -> bool {
        self@.batch_size >= 1
    }

    /// The session for the cursor `name` once its `DECLARE` came back with
    /// `outcome`. A failed declaration leaves no cursor behind, so it gives
    /// no session: its error is handed back as it is.
    pub fn declared<E>(outcome: Result<u64, E>, name: String, batch_size: usize) -> (r: Result<
        CursorSession,
        E,
    >)
        requires
            batch_size >= 1,
        ensures
            match outcome {
                Ok(_) => r matches Ok(s) && s.well_formed() && s@ == (SessionView {
                    name: name@,
                    batch_size: batch_size as nat,
                    phase: Phase::Open,
                }),
                Err(e) => r matches Err(f) && f == e,
            },
    {
        match outcome {
            Ok(_) => Ok(CursorSession { name, batch_size, phase: Phase::Open }),
            Err(e) => Err(e),
        }
    }

    /// The name of the cursor.
    pub fn name(&self) -> (r: &String)
        ensures
            r@ == self@.name,
    {
        &self.name
    }

    /// The number of rows each fetch asks for.
    pub fn batch_size(&self) -> (r: usize)
        ensures
            r as nat == self@.batch_size,
    {
        self.batch_size
    }

    /// Where the session stands.
    pub fn phase(&self) -> (r: Phase)
        ensures
            r == self@.phase,
    {
        self.phase
    }

    /// Starts a pull. An open session sends `FETCH FORWARD <batch_size> FROM
    /// <name>`; one whose fetch is outstanding waits for it; one that has
    /// ended, failed or closed ends the sequence again without a round trip.
    pub fn begin_pull(&mut self) -> (r: PullStep)
        requires
            old(self).well_formed(),
        ensures
            final(self).well_formed(),
            final(self)@ == (SessionView { phase: phase_after_pull(old(self)@.phase), ..old(self)@ }),
            (r is Fetch) == pull_sends_fetch(old(self)@.phase),
            (r is Await) == (old(self)@.phase is Fetching),
            (r is End) == is_terminal(old(self)@.phase),
            r matches PullStep::Fetch(s) ==> s@ == fetch_text(old(self)@.batch_size, old(self)@.name),
    {
        match self.phase {
            Phase::Open => {
                self.phase = Phase::Fetching;
                PullStep::Fetch(fetch_statement(self.batch_size, self.name.as_str()))
            },
            Phase::Fetching => PullStep::Await,
            _ => PullStep::End,
        }
    }

    /// Finishes a pull with the answer to its fetch. Rows go to the consumer
    /// as one batch; no rows end the sequence; an error is handed out once
    /// and stops the session.
    pub fn finish_fetch<R, E>(&mut self, outcome: Result<Vec<R>, E>) -> (r: Pulled<R, E>)
        requires
            old(self).well_formed(),
            old(self)@.phase is Fetching,
        ensures
            final(self).well_formed(),
            final(self)@.name == old(self)@.name,
            final(self)@.batch_size == old(self)@.batch_size,
            match outcome {
                Ok(rows) => {
                    &&& final(self)@.phase == phase_after_fetch(rows@.len())
                    &&& rows@.len() == 0 ==> r is End
                    &&& rows@.len() > 0 ==> (r matches Pulled::Batch(b) && b == rows)
                },
                Err(e) => {
                    &&& final(self)@.phase == Phase::Failed
                    &&& r matches Pulled::Failed(f) && f == e
                },
            },
    {
        match outcome {
            Ok(rows) => {
                if rows.len() == 0 {
                    self.phase = Phase::Exhausted;
                    Pulled::End
                } else {
                    self.phase = Phase::Open;
                    Pulled::Batch(rows)
                }
            },
            Err(e) => {
                self.phase = Phase::Failed;
                Pulled::Failed(e)
            },
        }
    }

    /// Releases the cursor, on an explicit close or when the session is
    /// dropped. Unless a close was already attempted, the caller sends
    /// `CLOSE <name>`, after draining an outstanding fetch; the cursor lives
    /// on the server whatever the pulls saw, so an ended or failed session is
    /// closed too. The session is closed from here on, whatever the answer:
    /// a second release sends nothing.
    pub fn begin_close(&mut self) -> (r: CloseStep)
        requires
            old(self).well_formed(),
        ensures
            final(self).well_formed(),
            final(self)@ == (SessionView { phase: Phase::Closed, ..old(self)@ }),
            (r is Close) == close_sends(old(self)@.phase),
            r matches CloseStep::Close { drain_first, statement } ==> {
                &&& drain_first == close_drains(old(self)@.phase)
                &&& statement@ == close_text(old(self)@.name)
            },
    {
        let r = match self.phase {
            Phase::Closed => CloseStep::AlreadyClosed,
            _ => CloseStep::Close {
                drain_first: matches!(self.phase, Phase::Fetching),
                statement: close_statement(self.name.as_str()),
            },
        };
        self.phase = Phase::Closed;
        r
    }
}

} // verus!
