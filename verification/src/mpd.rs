//! The line protocol: what all connections share, how lines are framed into
//! batches of commands, how a command finds its handler, and how the answers
//! to a batch become one response.

use crate::catalog::CatalogReply;
use crate::mpd::batch::{reply_view, Execution, Outcome, Progress};
use crate::mpd::mpd_commands::{
    arg_view, AddCommand, ClearCommand, CommandsCommand, CurrentSongCommand, DecodersCommand,
    DeleteIdCommand, IdleCommand, ListPlaylistInfoCommand, ListPlaylistsCommand, MpdCommand,
    NextCommand, OutputsCommand, PauseCommand, PlayCommand, PlaylistInfoCommand, PrevCommand,
    SetVolCommand, StatsCommand, StatusCommand, Step, StepView, TagTypesCommand,
    UrlHandlersCommand, VolumeCommand,
};
use crate::mpd::registry::{
    declared_verbs_are_the_standard_verbs, entries_of, every_kind, owners_of, verbs_of,
    CommandRegistry, RegistryView,
};
use crate::pattern::{capture, captured};
use crate::queue::{Queue, QueueView};
use crate::text::{push_line, str_eq, texts, trim, trimmed};
use vstd::prelude::*;
use vstd::string::*;

pub mod batch;
pub mod mpd_commands;
pub mod registry;

verus! {

/// A part of the player whose change waiting clients are told of.
#[derive(Clone, Copy, Debug, PartialEq, Eq, Structural)]
pub enum SubsystemEvent {
    /// The volume.
    Mixer,
}

/// What all connections share: the queue, and the notices of changes that
/// have not been passed on to waiting clients yet.
pub struct Client {
    pub queue: Queue,
    pub events: Vec<SubsystemEvent>,
}

/// A `Client` as a mathematical value.
pub struct ClientView {
    pub queue: QueueView,
    /// The notices not yet passed on, oldest first.
    pub events: Seq<SubsystemEvent>,
}

impl ClientView {
    pub open spec fn wf(self) -> bool {
        self.queue.wf()
    }

    /// With another queue in place of this one's.
    pub open spec fn with_queue(self, queue: QueueView) -> ClientView {
        ClientView { queue, ..self }
    }

    /// With one more notice to pass on.
    pub open spec fn notify(self, event: SubsystemEvent) -> ClientView {
        ClientView { events: self.events.push(event), ..self }
    }
}

impl View for Client {
    type V = ClientView;

    open spec fn view(&self) -> ClientView {
        ClientView { queue: self.queue@, events: self.events@ }
    }
}

impl Client {
    pub open spec fn wf(&self) -> bool {
        self@.wf()
    }

    /// A fresh queue and nothing to pass on.
    pub fn new() -> (c: Client)
        ensures
            c.wf(),
            c@.queue == QueueView::empty(),
            c@.events == Seq::<SubsystemEvent>::empty(),
    {
        Client { queue: Queue::new(), events: Vec::new() }
    }

    /// Notes a change for waiting clients.
    pub fn broadcast(&mut self, event: SubsystemEvent)
        ensures
            final(self)@ == old(self)@.notify(event),
    {
        self.events.push(event);
    }

    /// Hands over the notices that are pending, oldest first, and forgets
    /// them.
    pub fn take_events(&mut self) -> (r: Vec<SubsystemEvent>)
        ensures
            r@ == old(self)@.events,
            final(self)@ == (ClientView { events: Seq::empty(), ..old(self)@ }),
    {
        let mut r: Vec<SubsystemEvent> = Vec::new();
        std::mem::swap(&mut self.events, &mut r);
        r
    }
}

/// The commands, one name for each.
#[derive(Clone, Copy, Debug, PartialEq, Eq, Structural)]
pub enum CommandKind {
    Status,
    Stats,
    ListPlaylists,
    ListPlaylistInfo,
    Add,
    Play,
    Pause,
    Next,
    Prev,
    Clear,
    PlaylistInfo,
    CurrentSong,
    SetVol,
    Volume,
    DeleteId,
    UrlHandlers,
    Outputs,
    Decoders,
    TagTypes,
    Idle,
    Commands,
}

impl CommandKind {
    /// The verbs that the command answers to.
    pub open spec fn verbs(self) -> Seq<Seq<char>> {
        match self {
            CommandKind::Status => StatusCommand.verbs(),
            CommandKind::Stats => StatsCommand.verbs(),
            CommandKind::ListPlaylists => ListPlaylistsCommand.verbs(),
            CommandKind::ListPlaylistInfo => ListPlaylistInfoCommand.verbs(),
            CommandKind::Add => AddCommand.verbs(),
            CommandKind::Play => PlayCommand.verbs(),
            CommandKind::Pause => PauseCommand.verbs(),
            CommandKind::Next => NextCommand.verbs(),
            CommandKind::Prev => PrevCommand.verbs(),
            CommandKind::Clear => ClearCommand.verbs(),
            CommandKind::PlaylistInfo => PlaylistInfoCommand.verbs(),
            CommandKind::CurrentSong => CurrentSongCommand.verbs(),
            CommandKind::SetVol => SetVolCommand.verbs(),
            CommandKind::Volume => VolumeCommand.verbs(),
            CommandKind::DeleteId => DeleteIdCommand.verbs(),
            CommandKind::UrlHandlers => UrlHandlersCommand.verbs(),
            CommandKind::Outputs => OutputsCommand.verbs(),
            CommandKind::Decoders => DecodersCommand.verbs(),
            CommandKind::TagTypes => TagTypesCommand.verbs(),
            CommandKind::Idle => IdleCommand.verbs(),
            CommandKind::Commands => CommandsCommand.verbs(),
        }
    }

    /// What the shared state is after the command ran.
    pub open spec fn effect(self, client: ClientView, arg: Option<Seq<char>>, now: nat) -> ClientView {
        match self {
            CommandKind::Status => StatusCommand.effect(client, arg, now),
            CommandKind::Stats => StatsCommand.effect(client, arg, now),
            CommandKind::ListPlaylists => ListPlaylistsCommand.effect(client, arg, now),
            CommandKind::ListPlaylistInfo => ListPlaylistInfoCommand.effect(client, arg, now),
            CommandKind::Add => AddCommand.effect(client, arg, now),
            CommandKind::Play => PlayCommand.effect(client, arg, now),
            CommandKind::Pause => PauseCommand.effect(client, arg, now),
            CommandKind::Next => NextCommand.effect(client, arg, now),
            CommandKind::Prev => PrevCommand.effect(client, arg, now),
            CommandKind::Clear => ClearCommand.effect(client, arg, now),
            CommandKind::PlaylistInfo => PlaylistInfoCommand.effect(client, arg, now),
            CommandKind::CurrentSong => CurrentSongCommand.effect(client, arg, now),
            CommandKind::SetVol => SetVolCommand.effect(client, arg, now),
            CommandKind::Volume => VolumeCommand.effect(client, arg, now),
            CommandKind::DeleteId => DeleteIdCommand.effect(client, arg, now),
            CommandKind::UrlHandlers => UrlHandlersCommand.effect(client, arg, now),
            CommandKind::Outputs => OutputsCommand.effect(client, arg, now),
            CommandKind::Decoders => DecodersCommand.effect(client, arg, now),
            CommandKind::TagTypes => TagTypesCommand.effect(client, arg, now),
            CommandKind::Idle => IdleCommand.effect(client, arg, now),
            CommandKind::Commands => CommandsCommand.effect(client, arg, now),
        }
    }

    /// How far the command came.
    pub open spec fn answer(self, client: ClientView, arg: Option<Seq<char>>, now: nat) -> StepView {
        match self {
            CommandKind::Status => StatusCommand.answer(client, arg, now),
            CommandKind::Stats => StatsCommand.answer(client, arg, now),
            CommandKind::ListPlaylists => ListPlaylistsCommand.answer(client, arg, now),
            CommandKind::ListPlaylistInfo => ListPlaylistInfoCommand.answer(client, arg, now),
            CommandKind::Add => AddCommand.answer(client, arg, now),
            CommandKind::Play => PlayCommand.answer(client, arg, now),
            CommandKind::Pause => PauseCommand.answer(client, arg, now),
            CommandKind::Next => NextCommand.answer(client, arg, now),
            CommandKind::Prev => PrevCommand.answer(client, arg, now),
            CommandKind::Clear => ClearCommand.answer(client, arg, now),
            CommandKind::PlaylistInfo => PlaylistInfoCommand.answer(client, arg, now),
            CommandKind::CurrentSong => CurrentSongCommand.answer(client, arg, now),
            CommandKind::SetVol => SetVolCommand.answer(client, arg, now),
            CommandKind::Volume => VolumeCommand.answer(client, arg, now),
            CommandKind::DeleteId => DeleteIdCommand.answer(client, arg, now),
            CommandKind::UrlHandlers => UrlHandlersCommand.answer(client, arg, now),
            CommandKind::Outputs => OutputsCommand.answer(client, arg, now),
            CommandKind::Decoders => DecodersCommand.answer(client, arg, now),
            CommandKind::TagTypes => TagTypesCommand.answer(client, arg, now),
            CommandKind::Idle => IdleCommand.answer(client, arg, now),
            CommandKind::Commands => CommandsCommand.answer(client, arg, now),
        }
    }

    /// The verbs that the command answers to.
    pub fn get_type(self) -> (r: Vec<&'static str>)
        ensures
            texts(r@) == self.verbs(),
    {
        match self {
            CommandKind::Status => StatusCommand.get_type(),
            CommandKind::Stats => StatsCommand.get_type(),
            CommandKind::ListPlaylists => ListPlaylistsCommand.get_type(),
            CommandKind::ListPlaylistInfo => ListPlaylistInfoCommand.get_type(),
            CommandKind::Add => AddCommand.get_type(),
            CommandKind::Play => PlayCommand.get_type(),
            CommandKind::Pause => PauseCommand.get_type(),
            CommandKind::Next => NextCommand.get_type(),
            CommandKind::Prev => PrevCommand.get_type(),
            CommandKind::Clear => ClearCommand.get_type(),
            CommandKind::PlaylistInfo => PlaylistInfoCommand.get_type(),
            CommandKind::CurrentSong => CurrentSongCommand.get_type(),
            CommandKind::SetVol => SetVolCommand.get_type(),
            CommandKind::Volume => VolumeCommand.get_type(),
            CommandKind::DeleteId => DeleteIdCommand.get_type(),
            CommandKind::UrlHandlers => UrlHandlersCommand.get_type(),
            CommandKind::Outputs => OutputsCommand.get_type(),
            CommandKind::Decoders => DecodersCommand.get_type(),
            CommandKind::TagTypes => TagTypesCommand.get_type(),
            CommandKind::Idle => IdleCommand.get_type(),
            CommandKind::Commands => CommandsCommand.get_type(),
        }
    }

    /// Runs the command with the text in quotes `args`, while the clock
    /// shows `now`.
    pub fn handle(self, client: &mut Client, args: Option<&str>, now: u64) -> (r: Step)
        ensures
            final(client)@ == self.effect(old(client)@, arg_view(args), now as nat),
            r@ == self.answer(old(client)@, arg_view(args), now as nat),
            old(client).wf() ==> final(client).wf(),
    {
        match self {
            CommandKind::Status => StatusCommand.handle(client, args, now),
            CommandKind::Stats => StatsCommand.handle(client, args, now),
            CommandKind::ListPlaylists => ListPlaylistsCommand.handle(client, args, now),
            CommandKind::ListPlaylistInfo => ListPlaylistInfoCommand.handle(client, args, now),
            CommandKind::Add => AddCommand.handle(client, args, now),
            CommandKind::Play => PlayCommand.handle(client, args, now),
            CommandKind::Pause => PauseCommand.handle(client, args, now),
            CommandKind::Next => NextCommand.handle(client, args, now),
            CommandKind::Prev => PrevCommand.handle(client, args, now),
            CommandKind::Clear => ClearCommand.handle(client, args, now),
            CommandKind::PlaylistInfo => PlaylistInfoCommand.handle(client, args, now),
            CommandKind::CurrentSong => CurrentSongCommand.handle(client, args, now),
            CommandKind::SetVol => SetVolCommand.handle(client, args, now),
            CommandKind::Volume => VolumeCommand.handle(client, args, now),
            CommandKind::DeleteId => DeleteIdCommand.handle(client, args, now),
            CommandKind::UrlHandlers => UrlHandlersCommand.handle(client, args, now),
            CommandKind::Outputs => OutputsCommand.handle(client, args, now),
            CommandKind::Decoders => DecodersCommand.handle(client, args, now),
            CommandKind::TagTypes => TagTypesCommand.handle(client, args, now),
            CommandKind::Idle => IdleCommand.handle(client, args, now),
            CommandKind::Commands => CommandsCommand.handle(client, args, now),
        }
    }
}

/// The text in quotes of a command line is what this regular expression
/// captures: a quote, what follows up to the next quote, and that quote.
pub open spec fn argument_pattern() -> Seq<char> {
    "\"([^\"]*)\""@
}

/// The argument of a command line: the first text in quotes, as the `regex`
/// crate finds it.
pub open spec fn argument_of(command: Seq<char>) -> Option<Seq<char>> {
    match captured(argument_pattern(), command, 1) {
        Some(Some(s)) => Some(s),
        _ => None,
    }
}

/// The argument of a command line.
pub fn quoted_argument(command: &str) -> (r: Option<String>)
    ensures
        r.deep_view() == argument_of(command@),
{
    match capture("\"([^\"]*)\"", command, 1) {
        Ok(found) => found,
        Err(_) => None,
    }
}

impl RegistryView {
    /// What the shared state is after a command line ran. A line that is
    /// for no verb of the table changes nothing.
    pub open spec fn ran_effect(self, client: ClientView, command: Seq<char>, now: nat) -> ClientView {
        match self.resolve(command) {
            Some(kind) => kind.effect(client, argument_of(command), now),
            None => client,
        }
    }

    /// How far a command line came. A line that is for no verb of the table
    /// is done, without lines.
    pub open spec fn ran_answer(self, client: ClientView, command: Seq<char>, now: nat) -> StepView {
        match self.resolve(command) {
            Some(kind) => kind.answer(client, argument_of(command), now),
            None => StepView::Done(Ok(Seq::empty())),
        }
    }
}

/// What a client is told when it connects.
pub fn greeting() -> (r: String)
    ensures
        r@ == "OK MPD 0.21.11\n"@,
{
    String::from_str("OK MPD 0.21.11\n")
}

/// The most commands that a list of commands may hold.
pub const MAX_COMMAND_LIST: usize = 4096;

/// What reading one line led to.
#[derive(Debug, PartialEq, Eq)]
pub enum Framed {
    /// Nothing to do yet.
    Nothing,
    /// These commands are to be executed and answered together.
    Batch(Vec<String>),
    /// A list of commands grew beyond what is accepted: the connection is
    /// to be closed.
    TooLong,
}

/// A `Framed` as a mathematical value.
pub enum FramedView {
    Nothing,
    Batch(Seq<Seq<char>>),
    TooLong,
}

impl View for Framed {
    type V = FramedView;

    open spec fn view(&self) -> FramedView {
        match self {
            Framed::Nothing => FramedView::Nothing,
            Framed::Batch(commands) => FramedView::Batch(commands.deep_view()),
            Framed::TooLong => FramedView::TooLong,
        }
    }
}

/// The list of commands that is being collected, if one is, after a line
/// was read.
pub open spec fn framed_list(list: Option<Seq<Seq<char>>>, line: Seq<char>) -> Option<
    Seq<Seq<char>>,
> {
    match list {
        None => if trimmed(line) == "command_list_begin"@ {
            Some(Seq::empty())
        } else {
            None
        },
        Some(commands) => if trimmed(line) == "command_list_end"@ || commands.len()
            >= MAX_COMMAND_LIST {
            None
        } else {
            Some(commands.push(trimmed(line)))
        },
    }
}

/// What reading a line leads to. Outside a list a line that is not empty
/// and, trimmed, not `idle` is a batch of its own. Inside a list a line is
/// one more command, until the line that ends the list.
pub open spec fn framed(list: Option<Seq<Seq<char>>>, line: Seq<char>) -> FramedView {
    match list {
        None => if trimmed(line) != "command_list_begin"@ && line.len() > 0 && trimmed(line)
            != "idle"@ {
            FramedView::Batch(seq![trimmed(line)])
        } else {
            FramedView::Nothing
        },
        Some(commands) => if trimmed(line) == "command_list_end"@ {
            if commands.len() > 0 {
                FramedView::Batch(commands)
            } else {
                FramedView::Nothing
            }
        } else if commands.len() >= MAX_COMMAND_LIST {
            FramedView::TooLong
        } else {
            FramedView::Nothing
        },
    }
}

/// What serves one connection: the table of commands, and the list of
/// commands that is being collected while the client sends one.
pub struct MpdRequestHandler {
    commands: CommandRegistry,
    list: Option<Vec<String>>,
}

/// An `MpdRequestHandler` as a mathematical value.
pub struct HandlerView {
    pub table: RegistryView,
    pub list: Option<Seq<Seq<char>>>,
}

impl View for MpdRequestHandler {
    type V = HandlerView;

    closed spec fn view(&self) -> HandlerView {
        HandlerView { table: self.commands@, list: self.list.deep_view() }
    }
}

impl MpdRequestHandler {
    pub open spec fn wf(&self) -> bool {
        self@.table.wf()
    }

    /// A handler with every verb of the protocol in its table, outside any
    /// list of commands.
    pub fn new() -> (r: MpdRequestHandler)
        ensures
            r.wf(),
            r@.table.verbs == verbs_of(every_kind()),
            r@.table.kinds == owners_of(every_kind()),
            r@.list is None,
    {
        MpdRequestHandler { commands: Self::commands(), list: None }
    }

    /// The table of the protocol: every command entered under each verb
    /// that it declares.
    pub fn commands() -> (commands: CommandRegistry)
        ensures
            commands.wf(),
            commands@.verbs == verbs_of(every_kind()),
            commands@.kinds == owners_of(every_kind()),
    {
        let kinds: Vec<CommandKind> = vec![
            CommandKind::Status,
            CommandKind::Stats,
            CommandKind::ListPlaylists,
            CommandKind::ListPlaylistInfo,
            CommandKind::Add,
            CommandKind::Play,
            CommandKind::Pause,
            CommandKind::Next,
            CommandKind::Prev,
            CommandKind::Clear,
            CommandKind::PlaylistInfo,
            CommandKind::CurrentSong,
            CommandKind::SetVol,
            CommandKind::Volume,
            CommandKind::DeleteId,
            CommandKind::UrlHandlers,
            CommandKind::Outputs,
            CommandKind::Decoders,
            CommandKind::TagTypes,
            CommandKind::Idle,
            CommandKind::Commands,
        ];
        assert(kinds@ =~= every_kind());
        let entries = entries_of(&kinds);
        proof {
            declared_verbs_are_the_standard_verbs();
        }
        match CommandRegistry::with_entries(&entries) {
            Ok(commands) => commands,
            // No two of the declared verbs clash, so every entry is taken.
            Err(_) => CommandRegistry::new(),
        }
    }

    /// Takes one line as it was read, with or without its line feed.
    pub fn handle_line(&mut self, line: &str) -> (r: Framed)
        ensures
            final(self)@.table == old(self)@.table,
            final(self)@.list == framed_list(old(self)@.list, line@),
            r@ == framed(old(self)@.list, line@),
    {
        let command = trim(line);
        let mut list: Option<Vec<String>> = None;
        std::mem::swap(&mut self.list, &mut list);
        match list {
            None => {
                if str_eq(command.as_str(), "command_list_begin") {
                    let started: Vec<String> = Vec::new();
                    assert(started.deep_view() =~= Seq::<Seq<char>>::empty());
                    self.list = Some(started);
                    Framed::Nothing
                } else if !line.is_empty() && !str_eq(command.as_str(), "idle") {
                    let mut command_list: Vec<String> = Vec::new();
                    command_list.push(command);
                    assert(command_list.deep_view() =~= seq![trimmed(line@)]);
                    Framed::Batch(command_list)
                } else {
                    Framed::Nothing
                }
            },
            Some(mut command_list) => {
                if str_eq(command.as_str(), "command_list_end") {
                    if command_list.len() > 0 {
                        Framed::Batch(command_list)
                    } else {
                        Framed::Nothing
                    }
                } else if command_list.len() >= MAX_COMMAND_LIST {
                    Framed::TooLong
                } else {
                    push_line(&mut command_list, command);
                    self.list = Some(command_list);
                    Framed::Nothing
                }
            },
        }
    }

    /// The verb of the table that a command line is for, empty where it is
    /// for none.
    pub fn verb_of(&self, command: &str) -> (r: String)
        ensures
            r@ == self@.table.verb_of(command@),
    {
        match self.commands.lookup(command) {
            Some(i) => match self.commands.verb_at(i) {
                Some(verb) => String::from_str(verb),
                None => String::new(),
            },
            None => String::new(),
        }
    }

    /// Runs one command line: finds the command that its verb names, takes
    /// the text in quotes as the argument, and lets the command handle it.
    pub fn do_command(&self, client: &mut Client, command: &str, now: u64) -> (r: Step)
        ensures
            final(client)@ == self@.table.ran_effect(old(client)@, command@, now as nat),
            r@ == self@.table.ran_answer(old(client)@, command@, now as nat),
            old(client).wf() ==> final(client).wf(),
    {
        let found = match self.commands.lookup(command) {
            Some(i) => self.commands.kind_at(i),
            None => None,
        };
        match found {
            Some(kind) => {
                let argument = quoted_argument(command);
                match &argument {
                    Some(text) => kind.handle(client, Some(text.as_str()), now),
                    None => kind.handle(client, None, now),
                }
            },
            None => {
                let output: Vec<String> = Vec::new();
                assert(output.deep_view() =~= Seq::<Seq<char>>::empty());
                Step::Done(Ok(output))
            },
        }
    }

    /// Takes a batch as far as it goes: to its response, or to the next
    /// question for the catalog. `reply` is the catalog's answer to the
    /// question that the batch stopped at, if it stopped at one.
    pub fn execute_command(
        &self,
        client: &mut Client,
        run: &mut Execution,
        reply: Option<CatalogReply>,
        now: u64,
    ) -> (r: Progress)
        ensures
            (Outcome { client: final(client)@, run: final(run)@, progress: r@ })
                == self@.table.executed(old(client)@, old(run)@, reply_view(reply), now as nat),
            old(client).wf() ==> final(client).wf(),
            old(run).wf() ==> final(run).wf(),
    {
        run.carry_on(self, client, reply, now)
    }
}

} // verus!
