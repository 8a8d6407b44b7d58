//! The table from verbs to commands, and why a line finds one command in
//! it at most.

use crate::mpd::CommandKind;
use crate::text::{starts_with, texts};
use vstd::prelude::*;
use vstd::string::*;

verus! {

/// A verb with the space that ends it.
pub open spec fn key(verb: Seq<char>) -> Seq<char> {
    verb.push(' ')
}

/// Whether a line is for a verb: the line, with a space put after it,
/// begins with the verb and the space that ends it.
pub open spec fn answers_to(verb: Seq<char>, line: Seq<char>) -> bool {
    key(verb).is_prefix_of(key(line))
}

/// Whether one of two verbs, each with the space that ends it, begins with
/// the other.
pub open spec fn clash(a: Seq<char>, b: Seq<char>) -> bool {
    key(a).is_prefix_of(key(b)) || key(b).is_prefix_of(key(a))
}

/// Whether no two of the verbs clash.
pub open spec fn prefix_free(verbs: Seq<Seq<char>>) -> bool {
    forall|i: int, j: int| 0 <= i < j < verbs.len() ==> !clash(#[trigger] verbs[i], #[trigger] verbs[j])
}

/// `text` with a space after it.
fn with_space(text: &str) -> (r: String)
    ensures
        r@ == key(text@),
{
    let mut r = String::from_str(text);
    r.append(" ");
    proof {
        reveal_strlit(" ");
        assert(text@ + " "@ =~= text@.push(' '));
    }
    r
}

/// Whether a line is for a verb.
pub fn answers(verb: &str, line: &str) -> (r: bool)
    ensures
        r == answers_to(verb@, line@),
{
    let k = with_space(verb);
    let l = with_space(line);
    starts_with(l.as_str(), k.as_str())
}

/// Whether two verbs clash.
pub fn clashes(a: &str, b: &str) -> (r: bool)
    ensures
        r == clash(a@, b@),
{
    let ka = with_space(a);
    let kb = with_space(b);
    starts_with(kb.as_str(), ka.as_str()) || starts_with(ka.as_str(), kb.as_str())
}

/// The verbs of a list of entries.
pub open spec fn entry_verbs(entries: Seq<(&'static str, CommandKind)>) -> Seq<Seq<char>> {
    Seq::new(entries.len(), |i: int| entries[i].0@)
}

/// The commands of a list of entries.
pub open spec fn entry_kinds(entries: Seq<(&'static str, CommandKind)>) -> Seq<CommandKind> {
    Seq::new(entries.len(), |i: int| entries[i].1)
}

/// A verb was refused because it clashes with one that is registered.
#[derive(Clone, Copy, Debug, PartialEq, Eq, Structural)]
pub struct RegistryError;

/// The table from verbs to commands. No two verbs in it clash, so that a
/// line is for one verb of the table at most.
pub struct CommandRegistry {
    verbs: Vec<String>,
    kinds: Vec<CommandKind>,
}

/// A `CommandRegistry` as a mathematical value.
pub struct RegistryView {
    pub verbs: Seq<Seq<char>>,
    pub kinds: Seq<CommandKind>,
}

impl RegistryView {
    pub open spec fn wf(self) -> bool {
        &&& self.verbs.len() == self.kinds.len()
        &&& prefix_free(self.verbs)
    }

    /// Whether `verb` clashes with none of the table.
    pub open spec fn admits(self, verb: Seq<char>) -> bool {
        forall|i: int| 0 <= i < self.verbs.len() ==> !clash(#[trigger] self.verbs[i], verb)
    }

    /// With one more entry.
    pub open spec fn with(self, verb: Seq<char>, kind: CommandKind) -> RegistryView {
        RegistryView { verbs: self.verbs.push(verb), kinds: self.kinds.push(kind) }
    }

    /// Whether the entry at `i` is for the line.
    pub open spec fn matches_at(self, i: int, line: Seq<char>) -> bool {
        0 <= i < self.verbs.len() && answers_to(self.verbs[i], line)
    }

    /// Whether the entry at `i` is the first that is for the line.
    pub open spec fn first_at(self, i: int, line: Seq<char>) -> bool {
        self.matches_at(i, line) && forall|k: int| 0 <= k < i ==> !self.matches_at(k, line)
    }

    /// The place of the entry that a line is for: the first such entry. In
    /// a table without clashes it is the only one.
    pub open spec fn place_of(self, line: Seq<char>) -> Option<nat> {
        if exists|i: int| self.first_at(i, line) {
            Some((choose|i: int| self.first_at(i, line)) as nat)
        } else {
            None
        }
    }

    /// The command entered at a place.
    pub open spec fn kind_at(self, i: int) -> Option<CommandKind> {
        if 0 <= i < self.kinds.len() {
            Some(self.kinds[i])
        } else {
            None
        }
    }

    /// The command that a line is for.
    pub open spec fn resolve(self, line: Seq<char>) -> Option<CommandKind> {
        match self.place_of(line) {
            Some(i) => self.kind_at(i as int),
            None => None,
        }
    }

    /// The verb that a line begins with, empty where it is for none of the
    /// table.
    pub open spec fn verb_of(self, line: Seq<char>) -> Seq<char> {
        match self.place_of(line) {
            Some(i) => self.verbs[i as int],
            None => Seq::empty(),
        }
    }
}

/// Two verbs that a line is for clash.
pub proof fn verbs_of_one_line_clash(a: Seq<char>, b: Seq<char>, line: Seq<char>)
    requires
        answers_to(a, line),
        answers_to(b, line),
    ensures
        clash(a, b),
{
    let l = key(line);
    if a.len() <= b.len() {
        assert(key(a) =~= key(b).subrange(0, key(a).len() as int)) by {
            assert forall|k: int| 0 <= k < key(a).len() implies key(a)[k] == key(b)[k] by {
                assert(key(a)[k] == l.subrange(0, key(a).len() as int)[k]);
                assert(key(b)[k] == l.subrange(0, key(b).len() as int)[k]);
            }
        }
    } else {
        assert(key(b) =~= key(a).subrange(0, key(b).len() as int)) by {
            assert forall|k: int| 0 <= k < key(b).len() implies key(a)[k] == key(b)[k] by {
                assert(key(a)[k] == l.subrange(0, key(a).len() as int)[k]);
                assert(key(b)[k] == l.subrange(0, key(b).len() as int)[k]);
            }
        }
    }
}

/// In a table without clashes a line is for one entry at most.
pub proof fn line_has_one_entry(table: RegistryView, line: Seq<char>, i: int, j: int)
    requires
        table.wf(),
        table.matches_at(i, line),
        table.matches_at(j, line),
    ensures
        i == j,
{
    if i != j {
        verbs_of_one_line_clash(table.verbs[i], table.verbs[j], line);
        if i < j {
            assert(!clash(table.verbs[i], table.verbs[j]));
        } else {
            assert(!clash(table.verbs[j], table.verbs[i]));
        }
    }
}

impl View for CommandRegistry {
    type V = RegistryView;

    closed spec fn view(&self) -> RegistryView {
        RegistryView { verbs: self.verbs.deep_view(), kinds: self.kinds@ }
    }
}

impl CommandRegistry {
    pub open spec fn wf(&self) -> bool {
        self@.wf()
    }

    /// A table without entries.
    pub fn new() -> (r: CommandRegistry)
        ensures
            r.wf(),
            r@.verbs.len() == 0,
            r@.kinds.len() == 0,
    {
        let r = CommandRegistry { verbs: Vec::new(), kinds: Vec::new() };
        assert(r.verbs.deep_view() =~= Seq::<Seq<char>>::empty());
        r
    }

    /// How many verbs are in the table.
    pub fn len(&self) -> (r: usize)
        ensures
            r == self@.verbs.len(),
    {
        self.verbs.len()
    }

    /// Enters a verb for a command, unless it clashes with a verb of the
    /// table; then the table stays as it is.
    pub fn register(&mut self, verb: &str, kind: CommandKind) -> (r: Result<(), RegistryError>)
        ensures
            old(self).wf() ==> final(self).wf(),
            r is Ok <==> old(self)@.admits(verb@),
            r is Ok ==> final(self)@ == old(self)@.with(verb@, kind),
            r is Err ==> final(self)@ == old(self)@,
    {
        let mut i: usize = 0;
        while i < self.verbs.len()
            invariant
                i <= self.verbs.len(),
                *self == *old(self),
                forall|k: int| 0 <= k < i ==> !clash(#[trigger] self@.verbs[k], verb@),
            decreases self.verbs.len() - i,
        {
            let known = self.verbs[i].as_str();
            assert(known@ == self@.verbs[i as int]);
            if clashes(known, verb) {
                return Err(RegistryError);
            }
            i += 1;
        }
        self.verbs.push(String::from_str(verb));
        self.kinds.push(kind);
        assert(self.verbs.deep_view() =~= old(self).verbs.deep_view().push(verb@));
        Ok(())
    }

    /// The table with these entries, entered in order; no table where two
    /// of the verbs clash.
    pub fn with_entries(entries: &Vec<(&'static str, CommandKind)>) -> (r: Result<
        CommandRegistry,
        RegistryError,
    >)
        ensures
            r is Ok <==> prefix_free(entry_verbs(entries@)),
            r matches Ok(table) ==> table.wf() && table@.verbs == entry_verbs(entries@)
                && table@.kinds == entry_kinds(entries@),
    {
        let ghost verbs = entry_verbs(entries@);
        let ghost kinds = entry_kinds(entries@);
        let mut table = CommandRegistry::new();
        let mut i: usize = 0;
        assert(table@.verbs =~= verbs.take(0));
        assert(table@.kinds =~= kinds.take(0));
        while i < entries.len()
            invariant
                i <= entries.len(),
                verbs == entry_verbs(entries@),
                kinds == entry_kinds(entries@),
                table.wf(),
                table@.verbs == verbs.take(i as int),
                table@.kinds == kinds.take(i as int),
            decreases entries.len() - i,
        {
            let entered = table.register(entries[i].0, entries[i].1);
            if entered.is_err() {
                proof {
                    let k = choose|k: int|
                        0 <= k < i && clash(#[trigger] verbs.take(i as int)[k], verbs[i as int]);
                    assert(clash(verbs[k], verbs[i as int]));
                }
                return Err(RegistryError);
            }
            assert(table@.verbs =~= verbs.take(i + 1));
            assert(table@.kinds =~= kinds.take(i + 1));
            i += 1;
        }
        assert(verbs.take(entries.len() as int) =~= verbs);
        assert(kinds.take(entries.len() as int) =~= kinds);
        Ok(table)
    }

    /// The place in the table of the entry that a line is for.
    pub fn lookup(&self, line: &str) -> (r: Option<usize>)
        ensures
            r is Some == self@.place_of(line@) is Some,
            r matches Some(i) ==> self@.place_of(line@) == Some(i as nat) && i < self@.verbs.len(),
    {
        let mut i: usize = 0;
        while i < self.verbs.len()
            invariant
                i <= self.verbs.len(),
                forall|k: int| 0 <= k < i ==> !self@.matches_at(k, line@),
            decreases self.verbs.len() - i,
        {
            assert(self.verbs[i as int]@ == self@.verbs[i as int]);
            if answers(self.verbs[i].as_str(), line) {
                proof {
                    assert(self@.first_at(i as int, line@));
                    let chosen = choose|k: int| self@.first_at(k, line@);
                    assert(chosen == i) by {
                        if chosen < i {
                            assert(!self@.matches_at(chosen, line@));
                        }
                    }
                }
                return Some(i);
            }
            i += 1;
        }
        None
    }

    /// The command entered at a place of the table.
    pub fn kind_at(&self, i: usize) -> (r: Option<CommandKind>)
        ensures
            r == self@.kind_at(i as int),
    {
        if i < self.kinds.len() {
            Some(self.kinds[i])
        } else {
            None
        }
    }

    /// The verb entered at a place of the table.
    pub fn verb_at(&self, i: usize) -> (r: Option<&str>)
        ensures
            r is Some == (i < self@.verbs.len()),
            r matches Some(verb) ==> verb@ == self@.verbs[i as int],
    {
        if i < self.verbs.len() {
            Some(self.verbs[i].as_str())
        } else {
            None
        }
    }
}

/// Whether a verb is without spaces.
pub open spec fn spaceless(verb: Seq<char>) -> bool {
    forall|k: int| 0 <= k < verb.len() ==> verb[k] != ' '
}

/// Verbs without spaces clash only where they are the same verb.
pub proof fn spaceless_verbs_clash_when_equal(a: Seq<char>, b: Seq<char>)
    requires
        spaceless(a),
        spaceless(b),
        a != b,
    ensures
        !clash(a, b),
{
    if key(a).is_prefix_of(key(b)) {
        assert(key(b).subrange(0, key(a).len() as int)[a.len() as int] == key(b)[a.len() as int]);
        assert(key(a)[a.len() as int] == ' ');
        assert(a.len() == b.len());
        assert forall|k: int| 0 <= k < a.len() implies a[k] == b[k] by {
            assert(key(b).subrange(0, key(a).len() as int)[k] == key(b)[k]);
            assert(key(a)[k] == a[k]);
        }
        assert(a =~= b);
    }
    if key(b).is_prefix_of(key(a)) {
        assert(key(a).subrange(0, key(b).len() as int)[b.len() as int] == key(a)[b.len() as int]);
        assert(key(b)[b.len() as int] == ' ');
        assert(a.len() == b.len());
        assert forall|k: int| 0 <= k < a.len() implies a[k] == b[k] by {
            assert(key(a).subrange(0, key(b).len() as int)[k] == key(a)[k]);
            assert(key(b)[k] == b[k]);
        }
        assert(a =~= b);
    }
}

/// The commands of the protocol, in the order in which their verbs are
/// entered.
pub open spec fn every_kind() -> Seq<CommandKind> {
    seq![
        CommandKind::Status,
        CommandKind::Stats,
        CommandKind::ListPlaylists,
        CommandKind::ListPlaylistInfo,
        CommandKind::Add,
        CommandKind::Play,
        CommandKind::Pause,
        CommandKind::Next,
        CommandKind::Prev,
        CommandKind::Clear,
        CommandKind::PlaylistInfo,
        CommandKind::CurrentSong,
        CommandKind::SetVol,
        CommandKind::Volume,
        CommandKind::DeleteId,
        CommandKind::UrlHandlers,
        CommandKind::Outputs,
        CommandKind::Decoders,
        CommandKind::TagTypes,
        CommandKind::Idle,
        CommandKind::Commands,
    ]
}

/// The verbs that the first `n` commands of a list answer to: those of the
/// first command, then those of the second, and so on.
pub open spec fn verbs_up_to(kinds: Seq<CommandKind>, n: nat) -> Seq<Seq<char>>
    decreases n,
{
    if n == 0 {
        Seq::empty()
    } else {
        verbs_up_to(kinds, (n - 1) as nat) + kinds[n - 1].verbs()
    }
}

/// For each verb of `verbs_up_to(kinds, n)`, the command that answers to it.
pub open spec fn owners_up_to(kinds: Seq<CommandKind>, n: nat) -> Seq<CommandKind>
    decreases n,
{
    if n == 0 {
        Seq::empty()
    } else {
        owners_up_to(kinds, (n - 1) as nat) + Seq::new(
            kinds[n - 1].verbs().len(),
            |i: int| kinds[n - 1],
        )
    }
}

/// The verbs that the commands of a list answer to, command by command.
pub open spec fn verbs_of(kinds: Seq<CommandKind>) -> Seq<Seq<char>> {
    verbs_up_to(kinds, kinds.len())
}

/// For each verb of `verbs_of(kinds)`, the command that answers to it.
pub open spec fn owners_of(kinds: Seq<CommandKind>) -> Seq<CommandKind> {
    owners_up_to(kinds, kinds.len())
}

/// An entry for each verb of each command of the list, in order.
pub fn entries_of(kinds: &Vec<CommandKind>) -> (r: Vec<(&'static str, CommandKind)>)
    ensures
        entry_verbs(r@) == verbs_of(kinds@),
        entry_kinds(r@) == owners_of(kinds@),
{
    let mut r: Vec<(&'static str, CommandKind)> = Vec::new();
    let mut i: usize = 0;
    assert(entry_verbs(r@) =~= verbs_up_to(kinds@, 0));
    assert(entry_kinds(r@) =~= owners_up_to(kinds@, 0));
    while i < kinds.len()
        invariant
            i <= kinds.len(),
            entry_verbs(r@) == verbs_up_to(kinds@, i as nat),
            entry_kinds(r@) == owners_up_to(kinds@, i as nat),
        decreases kinds.len() - i,
    {
        let kind = kinds[i];
        let verbs = kind.get_type();
        let ghost before = r@;
        let mut j: usize = 0;
        assert(entry_verbs(r@) =~= entry_verbs(before) + texts(verbs@).take(0));
        assert(entry_kinds(r@) =~= entry_kinds(before) + Seq::new(0, |k: int| kind));
        while j < verbs.len()
            invariant
                j <= verbs.len(),
                r@.len() == before.len() + j,
                entry_verbs(r@) == entry_verbs(before) + texts(verbs@).take(j as int),
                entry_kinds(r@) == entry_kinds(before) + Seq::new(j as nat, |k: int| kind),
            decreases verbs.len() - j,
        {
            let ghost so_far = r@;
            r.push((verbs[j], kind));
            proof {
                assert(r@ == so_far.push((verbs@[j as int], kind)));
                assert(entry_verbs(r@) =~= entry_verbs(so_far).push(verbs@[j as int]@));
                assert(entry_kinds(r@) =~= entry_kinds(so_far).push(kind));
                assert(texts(verbs@).take(j + 1) =~= texts(verbs@).take(j as int).push(
                    verbs@[j as int]@,
                ));
                assert(entry_verbs(r@) =~= entry_verbs(before) + texts(verbs@).take(j + 1));
                assert(entry_kinds(r@) =~= entry_kinds(before) + Seq::new(
                    (j + 1) as nat,
                    |k: int| kind,
                ));
            }
            j += 1;
        }
        assert(texts(verbs@).take(verbs.len() as int) =~= kind.verbs());
        i += 1;
    }
    r
}

/// The verbs of the protocol, in the order in which they are entered.
pub open spec fn standard_verbs() -> Seq<Seq<char>> {
    seq![
        "status"@,
        "stats"@,
        "listplaylists"@,
        "listplaylistinfo"@,
        "add"@,
        "addid"@,
        "play"@,
        "playid"@,
        "pause"@,
        "next"@,
        "prev"@,
        "clear"@,
        "playlistinfo"@,
        "plchanges"@,
        "currentsong"@,
        "setvol"@,
        "volume"@,
        "deleteid"@,
        "urlhandlers"@,
        "outputs"@,
        "decoders"@,
        "tagtypes"@,
        "idle"@,
        "commands"@,
    ]
}

/// Every verb of the protocol is without spaces.
proof fn standard_verbs_are_spaceless()
    ensures
        forall|i: int| 0 <= i < standard_verbs().len() ==> spaceless(#[trigger] standard_verbs()[i]),
{
    reveal_strlit("status");
    reveal_strlit("stats");
    reveal_strlit("listplaylists");
    reveal_strlit("listplaylistinfo");
    reveal_strlit("add");
    reveal_strlit("addid");
    reveal_strlit("play");
    reveal_strlit("playid");
    reveal_strlit("pause");
    reveal_strlit("next");
    reveal_strlit("prev");
    reveal_strlit("clear");
    reveal_strlit("playlistinfo");
    reveal_strlit("plchanges");
    reveal_strlit("currentsong");
    reveal_strlit("setvol");
    reveal_strlit("volume");
    reveal_strlit("deleteid");
    reveal_strlit("urlhandlers");
    reveal_strlit("outputs");
    reveal_strlit("decoders");
    reveal_strlit("tagtypes");
    reveal_strlit("idle");
    reveal_strlit("commands");
}

/// The place of a verb of the protocol in the list of them, told from its
/// length and two of its letters.
spec fn place_by_letters(verb: Seq<char>) -> int {
    let n = verb.len();
    if n == 3 {
        4
    } else if n == 4 {
        if verb[0] == 'p' {
            if verb[2] == 'a' {
                6
            } else {
                10
            }
        } else if verb[0] == 'n' {
            9
        } else {
            22
        }
    } else if n == 5 {
        if verb[0] == 's' {
            1
        } else if verb[0] == 'a' {
            5
        } else if verb[0] == 'p' {
            8
        } else {
            11
        }
    } else if n == 6 {
        if verb[0] == 's' {
            if verb[2] == 'a' {
                0
            } else {
                15
            }
        } else if verb[0] == 'p' {
            7
        } else {
            16
        }
    } else if n == 7 {
        19
    } else if n == 8 {
        if verb[0] == 'd' {
            if verb[2] == 'l' {
                17
            } else {
                20
            }
        } else if verb[0] == 't' {
            21
        } else {
            23
        }
    } else if n == 9 {
        13
    } else if n == 11 {
        if verb[0] == 'c' {
            14
        } else {
            18
        }
    } else if n == 12 {
        12
    } else if n == 13 {
        2
    } else {
        3
    }
}

/// No two verbs of the protocol are the same.
proof fn standard_verbs_differ()
    ensures
        forall|i: int, j: int|
            0 <= i < j < standard_verbs().len() ==> #[trigger] standard_verbs()[i]
                != #[trigger] standard_verbs()[j],
{
    assert forall|i: int| 0 <= i < standard_verbs().len() implies place_by_letters(
        #[trigger] standard_verbs()[i],
    ) == i by {
        reveal_strlit("status");
        reveal_strlit("stats");
        reveal_strlit("listplaylists");
        reveal_strlit("listplaylistinfo");
        reveal_strlit("add");
        reveal_strlit("addid");
        reveal_strlit("play");
        reveal_strlit("playid");
        reveal_strlit("pause");
        reveal_strlit("next");
        reveal_strlit("prev");
        reveal_strlit("clear");
        reveal_strlit("playlistinfo");
        reveal_strlit("plchanges");
        reveal_strlit("currentsong");
        reveal_strlit("setvol");
        reveal_strlit("volume");
        reveal_strlit("deleteid");
        reveal_strlit("urlhandlers");
        reveal_strlit("outputs");
        reveal_strlit("decoders");
        reveal_strlit("tagtypes");
        reveal_strlit("idle");
        reveal_strlit("commands");
    }
}

/// No two verbs of the protocol clash: the table of the protocol can hold
/// them all.
pub proof fn standard_verbs_are_prefix_free()
    ensures
        prefix_free(standard_verbs()),
{
    standard_verbs_are_spaceless();
    standard_verbs_differ();
    assert forall|i: int, j: int| 0 <= i < j < standard_verbs().len() implies !clash(
        #[trigger] standard_verbs()[i],
        #[trigger] standard_verbs()[j],
    ) by {
        spaceless_verbs_clash_when_equal(standard_verbs()[i], standard_verbs()[j]);
    }
}

/// The command for each of the verbs of the protocol.
pub open spec fn standard_kinds() -> Seq<CommandKind> {
    seq![
        CommandKind::Status,
        CommandKind::Stats,
        CommandKind::ListPlaylists,
        CommandKind::ListPlaylistInfo,
        CommandKind::Add,
        CommandKind::Add,
        CommandKind::Play,
        CommandKind::Play,
        CommandKind::Pause,
        CommandKind::Next,
        CommandKind::Prev,
        CommandKind::Clear,
        CommandKind::PlaylistInfo,
        CommandKind::PlaylistInfo,
        CommandKind::CurrentSong,
        CommandKind::SetVol,
        CommandKind::Volume,
        CommandKind::DeleteId,
        CommandKind::UrlHandlers,
        CommandKind::Outputs,
        CommandKind::Decoders,
        CommandKind::TagTypes,
        CommandKind::Idle,
        CommandKind::Commands,
    ]
}

/// The verbs that the commands of the protocol declare are the verbs of
/// the protocol, each for the command that declares it, and none of them
/// twice: every verb is entered, and entered once.
pub proof fn declared_verbs_are_the_standard_verbs()
    ensures
        verbs_of(every_kind()) == standard_verbs(),
        owners_of(every_kind()) == standard_kinds(),
        prefix_free(verbs_of(every_kind())),
{
    reveal_with_fuel(verbs_up_to, 22);
    reveal_with_fuel(owners_up_to, 22);
    assert(verbs_of(every_kind()) =~= standard_verbs());
    assert(owners_of(every_kind()) =~= standard_kinds());
    standard_verbs_are_prefix_free();
}

} // verus!
