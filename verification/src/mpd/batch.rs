//! A batch of commands on its way to one response.

use crate::catalog::{CatalogReply, CatalogReplyView, CatalogRequest, CatalogRequestView};
use crate::mpd::mpd_commands::{
    resume, resumed_answer, resumed_effect, CommandError, Pending, PendingView, Step, StepView,
};
use crate::mpd::registry::RegistryView;
use crate::mpd::{Client, ClientView, MpdRequestHandler};
use crate::text::{decimal, extend_lines, labelled_number, push_decimal};
use vstd::prelude::*;
use vstd::string::*;

verus! {

/// The line that tells a client of a failure: the kind of failure, the place
/// of the command in its batch, the verb, and what went wrong.
pub open spec fn ack_text(error: CommandError, index: nat, verb: Seq<char>) -> Seq<char> {
    "ACK ["@ + decimal(error.ack_code()) + "@"@ + decimal(index) + "] {"@ + verb + "} "@
        + error.ack_message()
}

/// The line that tells a client of a failure.
pub fn ack_line(error: CommandError, index: usize, verb: &str) -> (r: String)
    ensures
        r@ == ack_text(error, index as nat, verb@),
{
    let mut r = labelled_number("ACK [", error.code());
    r.append("@");
    push_decimal(&mut r, index as u64);
    r.append("] {");
    r.append(verb);
    r.append("} ");
    let message = error.to_string();
    r.append(message.as_str());
    r
}

/// The lines in one text, each with a line feed after it.
pub open spec fn lines_text(lines: Seq<Seq<char>>) -> Seq<char>
    decreases lines.len(),
{
    if lines.len() == 0 {
        Seq::empty()
    } else {
        lines_text(lines.drop_last()) + lines.last() + "\n"@
    }
}

/// The response to a batch: the lines that its commands answered, and after
/// them `OK`, or the line of the first failure where a command failed; each
/// line with a line feed after it.
pub open spec fn response(output: Seq<Seq<char>>, failure: Option<Seq<char>>) -> Seq<char> {
    lines_text(output) + match failure {
        Some(ack) => ack,
        None => "OK"@,
    } + "\n"@
}

/// Where a batch of commands stands: the commands, how many of them are
/// done, the lines they answered, the line of the first failure, and what
/// the command in turn waits for.
pub struct Execution {
    commands: Vec<String>,
    position: usize,
    output: Vec<String>,
    failure: Option<String>,
    waiting: Option<Pending>,
}

/// An `Execution` as a mathematical value.
pub struct ExecutionView {
    pub commands: Seq<Seq<char>>,
    pub position: nat,
    pub output: Seq<Seq<char>>,
    pub failure: Option<Seq<char>>,
    pub waiting: Option<PendingView>,
}

impl ExecutionView {
    pub open spec fn wf(self) -> bool {
        &&& self.position <= self.commands.len()
        &&& self.waiting is Some ==> self.position < self.commands.len()
    }

    /// The batch before any of it is done.
    pub open spec fn fresh(commands: Seq<Seq<char>>) -> ExecutionView {
        ExecutionView {
            commands,
            position: 0,
            output: Seq::empty(),
            failure: None,
            waiting: None,
        }
    }

    /// With the command in turn done: its lines after those before, or,
    /// where it failed and no command before it had, the line of its
    /// failure kept.
    pub open spec fn settled(
        self,
        result: Result<Seq<Seq<char>>, CommandError>,
        verb: Seq<char>,
    ) -> ExecutionView {
        match result {
            Ok(lines) => ExecutionView {
                position: self.position + 1,
                output: self.output + lines,
                waiting: None,
                ..self
            },
            Err(e) => ExecutionView {
                position: self.position + 1,
                failure: match self.failure {
                    Some(first) => Some(first),
                    None => Some(ack_text(e, self.position, verb)),
                },
                waiting: None,
                ..self
            },
        }
    }
}

impl View for Execution {
    type V = ExecutionView;

    closed spec fn view(&self) -> ExecutionView {
        ExecutionView {
            commands: self.commands.deep_view(),
            position: self.position as nat,
            output: self.output.deep_view(),
            failure: self.failure.deep_view(),
            waiting: match self.waiting {
                Some(p) => Some(p@),
                None => None,
            },
        }
    }
}

impl Execution {
    pub open spec fn wf(&self) -> bool {
        self@.wf()
    }

    /// A batch of which nothing is done yet.
    pub fn new(commands: Vec<String>) -> (r: Execution)
        ensures
            r.wf(),
            r@ == ExecutionView::fresh(commands.deep_view()),
    {
        let r = Execution {
            commands,
            position: 0,
            output: Vec::new(),
            failure: None,
            waiting: None,
        };
        assert(r.output.deep_view() =~= Seq::<Seq<char>>::empty());
        r
    }

    /// Notes the outcome of the command in turn and moves on to the next.
    fn settle(&mut self, result: Result<Vec<String>, CommandError>, verb: &str)
        requires
            old(self)@.position < old(self)@.commands.len(),
        ensures
            final(self)@ == old(self)@.settled(
                match result {
                    Ok(lines) => Ok(lines.deep_view()),
                    Err(e) => Err(e),
                },
                verb@,
            ),
    {
        match result {
            Ok(lines) => {
                extend_lines(&mut self.output, lines);
            },
            Err(e) => {
                if self.failure.is_none() {
                    self.failure = Some(ack_line(e, self.position, verb));
                }
            },
        }
        assert(self.position < self.commands.len());
        self.position = self.position + 1;
        self.waiting = None;
    }

    /// The response to the batch as it stands.
    fn finish(&self) -> (r: String)
        ensures
            r@ == response(self@.output, self@.failure),
    {
        let mut r = String::new();
        let mut i: usize = 0;
        while i < self.output.len()
            invariant
                i <= self.output.len(),
                r@ == lines_text(self.output.deep_view().take(i as int)),
            decreases self.output.len() - i,
        {
            proof {
                let next = self.output.deep_view().take(i + 1);
                assert(next.drop_last() =~= self.output.deep_view().take(i as int));
                assert(next.last() == self.output@[i as int]@);
            }
            r.append(self.output[i].as_str());
            r.append("\n");
            i += 1;
        }
        assert(self.output.deep_view().take(self.output.len() as int) =~= self.output.deep_view());
        match &self.failure {
            Some(ack) => r.append(ack.as_str()),
            None => r.append("OK"),
        }
        r.append("\n");
        r
    }

    /// Takes the batch as far as it goes: to its response, or to the next
    /// question for the catalog.
    pub(crate) fn carry_on(
        &mut self,
        handler: &MpdRequestHandler,
        client: &mut Client,
        reply: Option<CatalogReply>,
        now: u64,
    ) -> (r: Progress)
        ensures
            (Outcome { client: final(client)@, run: final(self)@, progress: r@ })
                == handler@.table.executed(old(client)@, old(self)@, reply_view(reply), now as nat),
            old(client).wf() ==> final(client).wf(),
            old(self).wf() ==> final(self).wf(),
    {
        let ghost goal = handler@.table.executed(
            old(client)@,
            old(self)@,
            reply_view(reply),
            now as nat,
        );
        let mut waiting: Option<Pending> = None;
        std::mem::swap(&mut self.waiting, &mut waiting);
        if self.position < self.commands.len() {
            if let Some(pending) = waiting {
                let step = match reply {
                    Some(given) => resume(client, pending, given),
                    None => Step::Done(Err(CommandError::Catalog)),
                };
                match step {
                    Step::Ask(request, pending) => {
                        self.waiting = Some(pending);
                        return Progress::Ask(request);
                    },
                    Step::Done(result) => {
                        let verb = handler.verb_of(self.commands[self.position].as_str());
                        self.settle(result, verb.as_str());
                    },
                }
            }
        }
        while self.position < self.commands.len()
            invariant
                old(client).wf() ==> client.wf(),
                old(self).wf() ==> self.wf(),
                self@.waiting is None,
                goal == handler@.table.executed(
                    old(client)@,
                    old(self)@,
                    reply_view(reply),
                    now as nat,
                ),
                goal == handler@.table.advance(client@, self@, now as nat),
            decreases self.commands.len() - self.position,
        {
            let ghost run_before = self@;
            let ghost line = run_before.commands[run_before.position as int];
            assert(self.commands[self.position as int]@ == line);
            let step = handler.do_command(client, self.commands[self.position].as_str(), now);
            assert(goal == handler@.table.proceed(client@, run_before, step@, now as nat));
            match step {
                Step::Ask(request, pending) => {
                    self.waiting = Some(pending);
                    assert(self@ == (ExecutionView { waiting: Some(pending@), ..run_before }));
                    return Progress::Ask(request);
                },
                Step::Done(result) => {
                    let verb = handler.verb_of(self.commands[self.position].as_str());
                    self.settle(result, verb.as_str());
                },
            }
        }
        Progress::Finished(self.finish())
    }
}

/// What a batch needs next.
#[derive(Debug, PartialEq, Eq)]
pub enum Progress {
    /// An answer from the catalog, for the command in turn.
    Ask(CatalogRequest),
    /// Nothing: this is the response to send.
    Finished(String),
}

/// A `Progress` as a mathematical value.
pub enum ProgressView {
    Ask(CatalogRequestView),
    Finished(Seq<char>),
}

impl View for Progress {
    type V = ProgressView;

    open spec fn view(&self) -> ProgressView {
        match self {
            Progress::Ask(request) => ProgressView::Ask(request@),
            Progress::Finished(text) => ProgressView::Finished(text@),
        }
    }
}

/// Where things stand after a batch was taken as far as it goes.
pub struct Outcome {
    pub client: ClientView,
    pub run: ExecutionView,
    pub progress: ProgressView,
}

impl RegistryView {
    /// The batch taken on from the command in turn: every command runs,
    /// whether or not one before it failed, until one needs the catalog or
    /// none is left.
    pub open spec fn advance(self, client: ClientView, run: ExecutionView, now: nat) -> Outcome
        decreases run.commands.len() - run.position, 1nat,
    {
        if run.position >= run.commands.len() {
            Outcome {
                client,
                run,
                progress: ProgressView::Finished(response(run.output, run.failure)),
            }
        } else {
            let line = run.commands[run.position as int];
            self.proceed(
                self.ran_effect(client, line, now),
                run,
                self.ran_answer(client, line, now),
                now,
            )
        }
    }

    /// The batch taken on from a step of the command in turn: it stops
    /// where the command asks the catalog, and goes on to the next command
    /// where the command is done.
    pub open spec fn proceed(
        self,
        client: ClientView,
        run: ExecutionView,
        step: StepView,
        now: nat,
    ) -> Outcome
        decreases run.commands.len() - run.position, 0nat,
        when run.position < run.commands.len()
    {
        match step {
            StepView::Ask(request, pending) => Outcome {
                client,
                run: ExecutionView { waiting: Some(pending), ..run },
                progress: ProgressView::Ask(request),
            },
            StepView::Done(result) => self.advance(
                client,
                run.settled(result, self.verb_of(run.commands[run.position as int])),
                now,
            ),
        }
    }

    /// The batch taken on with what the catalog answered, where the command
    /// in turn waited for it. A command that waited and got no answer has
    /// failed; an answer that nobody waited for is dropped.
    pub open spec fn executed(
        self,
        client: ClientView,
        run: ExecutionView,
        reply: Option<CatalogReplyView>,
        now: nat,
    ) -> Outcome {
        let rest = ExecutionView { waiting: None, ..run };
        match run.waiting {
            Some(pending) => if run.position < run.commands.len() {
                match reply {
                    Some(r) => self.proceed(
                        resumed_effect(client, pending, r),
                        rest,
                        resumed_answer(client, pending, r),
                        now,
                    ),
                    None => self.proceed(
                        client,
                        rest,
                        StepView::Done(Err(CommandError::Catalog)),
                        now,
                    ),
                }
            } else {
                self.advance(client, rest, now)
            },
            None => self.advance(client, run, now),
        }
    }
}

/// The answer of the catalog, if there is one, as a mathematical value.
pub open spec fn reply_view(reply: Option<CatalogReply>) -> Option<CatalogReplyView> {
    match reply {
        Some(given) => Some(given@),
        None => None,
    }
}

} // verus!
