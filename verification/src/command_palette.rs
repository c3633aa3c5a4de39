//! Command palette: filtering of user commands, completion of built-in
//! command aliases, and parsing of command lines such as `nf notes.txt`.
use vstd::prelude::*;
use crate::text::{
    chars_contains, chars_eq, chars_of, chars_starts_with, contains, join, join_chars,
    lemma_filter_take_step, lowercase, split_words, starts_with, string_of, string_views, to_lowercase,
    trim, trim_chars, views, words,
};

verus! {

/// A user-invokable command.
#[derive(Debug, PartialEq, Eq)]
pub struct Command {
    pub title: String,
    pub action: CommandAction,
}

#[derive(Debug, PartialEq, Eq)]
pub enum CommandAction {
    OpenConfig,
    Reload,
    NewFile,
    NewFolder,
    NewFileWithName(String),
    NewFolderWithName(String),
    SearchContent,
    SearchContentWithPattern(String),
    Custom(String),
}

/// What a `CommandAction` denotes, with its text as characters.
pub enum ActionView {
    OpenConfig,
    Reload,
    NewFile,
    NewFolder,
    NewFileWithName(Seq<char>),
    NewFolderWithName(Seq<char>),
    SearchContent,
    SearchContentWithPattern(Seq<char>),
    Custom(Seq<char>),
}

impl View for CommandAction {
    type V = ActionView;

    open spec fn view(&self) -> ActionView {
        match self {
            CommandAction::OpenConfig => ActionView::OpenConfig,
            CommandAction::Reload => ActionView::Reload,
            CommandAction::NewFile => ActionView::NewFile,
            CommandAction::NewFolder => ActionView::NewFolder,
            CommandAction::NewFileWithName(s) => ActionView::NewFileWithName(s@),
            CommandAction::NewFolderWithName(s) => ActionView::NewFolderWithName(s@),
            CommandAction::SearchContent => ActionView::SearchContent,
            CommandAction::SearchContentWithPattern(s) => ActionView::SearchContentWithPattern(s@),
            CommandAction::Custom(s) => ActionView::Custom(s@),
        }
    }
}

impl Clone for CommandAction {
    fn clone(&self) -> (r: Self)
        ensures
            r == *self,
    {
        match self {
            CommandAction::OpenConfig => CommandAction::OpenConfig,
            CommandAction::Reload => CommandAction::Reload,
            CommandAction::NewFile => CommandAction::NewFile,
            CommandAction::NewFolder => CommandAction::NewFolder,
            CommandAction::NewFileWithName(s) => CommandAction::NewFileWithName(s.clone()),
            CommandAction::NewFolderWithName(s) => CommandAction::NewFolderWithName(s.clone()),
            CommandAction::SearchContent => CommandAction::SearchContent,
            CommandAction::SearchContentWithPattern(s) => CommandAction::SearchContentWithPattern(
                s.clone(),
            ),
            CommandAction::Custom(s) => CommandAction::Custom(s.clone()),
        }
    }
}

impl Clone for Command {
    fn clone(&self) -> (r: Self)
        ensures
            r == *self,
    {
        Command { title: self.title.clone(), action: self.action.clone() }
    }
}

#[derive(Debug, Clone, PartialEq, Eq)]
pub struct CommandPaletteState {
    pub input: String,
    pub filtered: Vec<Command>,
    pub all_commands: Vec<Command>,
    pub selected: usize,
    pub completions: Vec<String>,
    pub completion_index: usize,
    pub show_completions: bool,
}

// ---------------------------------------------------------------------
// Specification
// ---------------------------------------------------------------------

/// The completion selected after moving forward among `len` completions,
/// wrapping from the last to the first.
pub open spec fn next_completion_index(len: nat, i: usize) -> usize {
    if len > 0 {
        ((i + 1) % (len as int)) as usize
    } else {
        i
    }
}

/// The completion selected after moving back among `len` completions,
/// wrapping from the first to the last.
pub open spec fn prev_completion_index(len: nat, i: usize) -> usize {
    if len == 0 {
        i
    } else if i == 0 {
        (len - 1) as usize
    } else {
        (i - 1) as usize
    }
}

/// Moving forward and back through the completions returns to the same
/// one, in either order, whenever the selection is one of them.
pub proof fn law_completion_moves_undo(len: nat, i: usize)
    requires
        i < len <= usize::MAX,
    ensures
        prev_completion_index(len, next_completion_index(len, i)) == i,
        next_completion_index(len, prev_completion_index(len, i)) == i,
        next_completion_index(len, i) < len,
        prev_completion_index(len, i) < len,
{
    if i + 1 < len {
        vstd::arithmetic::div_mod::lemma_small_mod((i + 1) as nat, len);
    } else {
        assert((len as int) % (len as int) == 0) by (nonlinear_arith)
            requires
                len > 0,
        ;
    }
    if i > 0 {
        vstd::arithmetic::div_mod::lemma_small_mod(i as nat, len);
    } else {
        assert((len as int) % (len as int) == 0) by (nonlinear_arith)
            requires
                len > 0,
        ;
    }
}

/// A command matches a (lowercased) query when its lowercased title contains it.
pub open spec fn title_matches(c: Command, q: Seq<char>) -> bool {
    contains(lowercase(c.title@), q)
}

/// The commands of `all`, in order, whose titles match the lowercased `input`.
pub open spec fn filter_commands(all: Seq<Command>, input: Seq<char>) -> Seq<Command> {
    all.filter(|c: Command| title_matches(c, lowercase(input)))
}

/// The built-in command aliases, in lexicographic order.
pub open spec fn builtin_aliases() -> Seq<Seq<char>> {
    seq!["config"@, "grep"@, "nd"@, "nf"@, "reload"@]
}

/// Completion candidates for an input: the built-in aliases, in
/// lexicographic order, that start with the lowercased first word;
/// none when the input has no word.
pub open spec fn completions_for(input: Seq<char>) -> Seq<Seq<char>> {
    let ws = words(input);
    if ws.len() == 0 {
        Seq::empty()
    } else {
        builtin_aliases().filter(|a: Seq<char>| starts_with(a, lowercase(ws[0])))
    }
}

/// The input after replacing its first word by `completion`; the words
/// are then separated by single spaces.
pub open spec fn input_with_completion(input: Seq<char>, completion: Seq<char>) -> Seq<char> {
    let ws = words(input);
    if ws.len() == 0 {
        completion
    } else {
        join(seq![completion] + ws.drop_first(), seq![' '])
    }
}

/// The action of the first command whose title matches the lowercased query.
pub open spec fn first_title_match(all: Seq<Command>, q: Seq<char>) -> Option<ActionView>
    decreases all.len(),
{
    if all.len() == 0 {
        None
    } else if title_matches(all[0], q) {
        Some(all[0].action@)
    } else {
        first_title_match(all.drop_first(), q)
    }
}

/// The action found for a query is that of the earliest command whose
/// lowercased title contains the query: no earlier title contains it, and
/// there is no action only when no title contains it.
pub proof fn law_first_match_is_earliest(all: Seq<Command>, q: Seq<char>)
    ensures
        first_title_match(all, q) is None <==> (forall|i: int|
            0 <= i < all.len() ==> !contains(lowercase(#[trigger] all[i].title@), q)),
        forall|i: int|
            #![trigger all[i]]
            0 <= i < all.len() && contains(lowercase(all[i].title@), q) && (forall|j: int|
                0 <= j < i ==> !contains(lowercase(#[trigger] all[j].title@), q)) ==> first_title_match(all, q)
                == Some(all[i].action@),
    decreases all.len(),
{
    if all.len() > 0 {
        let rest = all.drop_first();
        law_first_match_is_earliest(rest, q);
        assert forall|i: int| 0 <= i < rest.len() implies rest[i] == all[i + 1] by {}
        if !title_matches(all[0], q) {
            assert((forall|i: int| 0 <= i < all.len() ==> !contains(lowercase(#[trigger] all[i].title@), q))
                <==> (forall|i: int| 0 <= i < rest.len() ==> !contains(lowercase(#[trigger] rest[i].title@), q)))
                by {
                if forall|i: int| 0 <= i < rest.len() ==> !contains(lowercase(#[trigger] rest[i].title@), q) {
                    assert forall|i: int| 0 <= i < all.len() implies !contains(lowercase(#[trigger] all[i].title@), q)
                        by {
                        if i > 0 {
                            assert(all[i] == rest[i - 1]);
                        }
                    }
                }
            }
            assert forall|i: int|
                #![trigger all[i]]
                0 <= i < all.len() && contains(lowercase(all[i].title@), q) && (forall|j: int|
                    0 <= j < i ==> !contains(lowercase(#[trigger] all[j].title@), q)) implies first_title_match(
                all,
                q,
            ) == Some(all[i].action@) by {
                assert(i > 0);
                assert(rest[i - 1] == all[i]);
                assert forall|j: int| 0 <= j < i - 1 implies !contains(lowercase(#[trigger] rest[j].title@), q) by {
                    assert(rest[j] == all[j + 1]);
                }
            }
        } else {
            assert forall|i: int|
                #![trigger all[i]]
                0 <= i < all.len() && contains(lowercase(all[i].title@), q) && (forall|j: int|
                    0 <= j < i ==> !contains(lowercase(#[trigger] all[j].title@), q)) implies first_title_match(
                all,
                q,
            ) == Some(all[i].action@) by {
                if i > 0 {
                    assert(!contains(lowercase(all[0].title@), q));
                }
            }
        }
    }
}

proof fn lemma_words_nonempty_text(t: Seq<char>)
    ensures
        words(t).len() > 0 ==> t.len() > 0,
{
    if t.len() == 0 {
        assert(crate::text::split_scan(t) == (Seq::<Seq<char>>::empty(), Seq::<char>::empty()));
    }
}

/// A command line whose first word is not a built-in alias runs the
/// earliest command whose lowercased title contains the lowercased line.
pub proof fn law_parse_runs_earliest_matching_title(input: Seq<char>, all: Seq<Command>, i: int)
    requires
        words(trim(input)).len() > 0,
        !builtin_aliases().contains(words(trim(input))[0]),
        0 <= i < all.len(),
        contains(lowercase(all[i].title@), lowercase(trim(input))),
        forall|j: int| 0 <= j < i ==> !contains(lowercase(#[trigger] all[j].title@), lowercase(trim(input))),
    ensures
        parse_command_spec(input, all) == Some(all[i].action@),
{
    let w = words(trim(input))[0];
    assert(builtin_aliases()[0] == "config"@);
    assert(builtin_aliases()[1] == "grep"@);
    assert(builtin_aliases()[2] == "nd"@);
    assert(builtin_aliases()[3] == "nf"@);
    assert(builtin_aliases()[4] == "reload"@);
    assert(w != "config"@ && w != "grep"@ && w != "nd"@ && w != "nf"@ && w != "reload"@);
    lemma_words_nonempty_text(trim(input));
    law_first_match_is_earliest(all, lowercase(trim(input)));
    assert(all[i] == all[i]);
}

/// The action a command line denotes.
pub open spec fn parse_command_spec(input: Seq<char>, all: Seq<Command>) -> Option<ActionView> {
    let t = trim(input);
    let ws = words(t);
    if t.len() == 0 || ws.len() == 0 {
        None
    } else {
        let cmd = ws[0];
        let rest = join(ws.drop_first(), seq![' ']);
        if cmd == "nf"@ {
            if ws.len() > 1 {
                Some(ActionView::NewFileWithName(rest))
            } else {
                Some(ActionView::NewFile)
            }
        } else if cmd == "nd"@ {
            if ws.len() > 1 {
                Some(ActionView::NewFolderWithName(rest))
            } else {
                Some(ActionView::NewFolder)
            }
        } else if cmd == "reload"@ {
            Some(ActionView::Reload)
        } else if cmd == "grep"@ {
            Some(ActionView::SearchContent)
        } else if cmd == "config"@ {
            Some(ActionView::OpenConfig)
        } else {
            first_title_match(all, lowercase(t))
        }
    }
}

pub open spec fn action_views(r: Option<CommandAction>) -> Option<ActionView> {
    match r {
        Some(a) => Some(a@),
        None => None,
    }
}

/// The state after the completions have been recomputed for the input.
pub open spec fn completions_refreshed(s: CommandPaletteState) -> bool {
    &&& string_views(s.completions@) == completions_for(s.input@)
    &&& s.completion_index == 0
    &&& s.show_completions == (s.completions@.len() > 0)
}

/// The state after filtering for the current input.
pub open spec fn filter_refreshed(s: CommandPaletteState) -> bool {
    &&& s.filtered@ == filter_commands(s.all_commands@, s.input@)
    &&& s.selected == 0
    &&& completions_refreshed(s)
}

/// Description of a built-in command alias.
pub open spec fn description_of(command: Seq<char>) -> Option<Seq<char>> {
    if command == "nf"@ {
        Some("Create a new file"@)
    } else if command == "nd"@ {
        Some("Create a new folder"@)
    } else if command == "reload"@ {
        Some("Reload current directory"@)
    } else if command == "grep"@ {
        Some("Enter content search overlay"@)
    } else if command == "config"@ {
        Some("Open configuration"@)
    } else {
        None
    }
}

// ---------------------------------------------------------------------
// Implementation
// ---------------------------------------------------------------------

fn clone_commands(v: &Vec<Command>) -> (r: Vec<Command>)
    ensures
        r@ == v@,
{
    let mut r: Vec<Command> = Vec::new();
    let mut i: usize = 0;
    while i < v.len()
        invariant
            i <= v.len(),
            r@ == v@.take(i as int),
        decreases v.len() - i,
    {
        r.push(v[i].clone());
        assert(v@.take(i as int).push(v@[i as int]) =~= v@.take(i + 1));
        i = i + 1;
    }
    assert(v@.take(v.len() as int) =~= v@);
    r
}

fn alias_table() -> (v: Vec<Vec<char>>)
    ensures
        views(v@) == builtin_aliases(),
{
    let mut v: Vec<Vec<char>> = Vec::new();
    v.push(chars_of("config"));
    v.push(chars_of("grep"));
    v.push(chars_of("nd"));
    v.push(chars_of("nf"));
    v.push(chars_of("reload"));
    assert(views(v@) =~= builtin_aliases());
    v
}

impl CommandPaletteState {
    pub fn new(commands: Vec<Command>) -> (r: Self)
        ensures
            r.input@ == Seq::<char>::empty(),
            r.filtered@ == commands@,
            r.all_commands@ == commands@,
            r.selected == 0,
            r.completions@.len() == 0,
            r.completion_index == 0,
            !r.show_completions,
    {
        let filtered = clone_commands(&commands);
        CommandPaletteState {
            input: String::new(),
            filtered,
            all_commands: commands,
            selected: 0,
            completions: Vec::new(),
            completion_index: 0,
            show_completions: false,
        }
    }

    /// Call this on input change to filter commands and update completions.
    pub fn update_filter(&mut self)
        ensures
            final(self).input == old(self).input,
            final(self).all_commands == old(self).all_commands,
            filter_refreshed(*final(self)),
    {
        let q = to_lowercase(self.input.as_str());
        let qc = chars_of(q.as_str());
        let ghost pred = |c: Command| title_matches(c, lowercase(self.input@));
        let mut out: Vec<Command> = Vec::new();
        let mut i: usize = 0;
        while i < self.all_commands.len()
            invariant
                i <= self.all_commands.len(),
                qc@ == lowercase(self.input@),
                pred == (|c: Command| title_matches(c, lowercase(self.input@))),
                out@ == self.all_commands@.take(i as int).filter(pred),
            decreases self.all_commands.len() - i,
        {
            let title = to_lowercase(self.all_commands[i].title.as_str());
            let tc = chars_of(title.as_str());
            proof {
                lemma_filter_take_step(self.all_commands@, pred, i as int);
            }
            if chars_contains(tc.as_slice(), qc.as_slice()) {
                out.push(self.all_commands[i].clone());
            }
            i = i + 1;
        }
        assert(self.all_commands@.take(self.all_commands.len() as int) =~= self.all_commands@);
        self.filtered = out;
        self.selected = 0;
        self.update_completions();
    }

    /// Update auto-completion suggestions based on current input
    pub fn update_completions(&mut self)
        ensures
            final(self).input == old(self).input,
            final(self).all_commands == old(self).all_commands,
            final(self).filtered == old(self).filtered,
            final(self).selected == old(self).selected,
            completions_refreshed(*final(self)),
    {
        self.completions = Vec::new();
        self.completion_index = 0;
        self.show_completions = false;
        let ic = chars_of(self.input.as_str());
        let parts = split_words(ic.as_slice());
        if parts.len() == 0 {
            assert(string_views(self.completions@) =~= completions_for(self.input@));
            return ;
        }
        let first = string_of(parts[0].as_slice());
        let lower = to_lowercase(first.as_str());
        let part = chars_of(lower.as_str());
        let ghost pred = |a: Seq<char>| starts_with(a, lowercase(words(self.input@)[0]));
        let aliases = alias_table();
        let mut out: Vec<String> = Vec::new();
        let mut i: usize = 0;
        while i < aliases.len()
            invariant
                i <= aliases.len(),
                views(aliases@) == builtin_aliases(),
                part@ == lowercase(words(self.input@)[0]),
                pred == (|a: Seq<char>| starts_with(a, lowercase(words(self.input@)[0]))),
                string_views(out@) == builtin_aliases().take(i as int).filter(pred),
            decreases aliases.len() - i,
        {
            proof {
                lemma_filter_take_step(builtin_aliases(), pred, i as int);
            }
            assert(builtin_aliases()[i as int] == aliases@[i as int]@);
            if chars_starts_with(aliases[i].as_slice(), part.as_slice()) {
                let ghost before = string_views(out@);
                out.push(string_of(aliases[i].as_slice()));
                assert(string_views(out@) =~= before.push(aliases@[i as int]@));
            }
            i = i + 1;
        }
        assert(builtin_aliases().take(5) =~= builtin_aliases());
        self.show_completions = out.len() > 0;
        self.completions = out;
    }

    /// Apply the currently selected completion
    pub fn apply_completion(&mut self)
        ensures
            old(self).completion_index < old(self).completions@.len() ==> {
                &&& final(self).input@ == input_with_completion(
                    old(self).input@,
                    old(self).completions@[old(self).completion_index as int]@,
                )
                &&& final(self).all_commands == old(self).all_commands
                &&& filter_refreshed(*final(self))
            },
            old(self).completion_index >= old(self).completions@.len() ==> *final(self) == *old(self),
    {
        if self.completion_index < self.completions.len() {
            let completion = chars_of(self.completions[self.completion_index].as_str());
            let ic = chars_of(self.input.as_str());
            let parts = split_words(ic.as_slice());
            if parts.len() == 0 {
                self.input = string_of(completion.as_slice());
            } else {
                let mut new_parts: Vec<Vec<char>> = Vec::new();
                new_parts.push(completion);
                let mut k: usize = 1;
                while k < parts.len()
                    invariant
                        1 <= k <= parts.len(),
                        views(new_parts@) == seq![
                            old(self).completions@[old(self).completion_index as int]@,
                        ] + views(parts@).subrange(1, k as int),
                    decreases parts.len() - k,
                {
                    let ghost before = views(new_parts@);
                    new_parts.push(parts[k].clone());
                    assert(views(new_parts@) =~= before.push(parts@[k as int]@));
                    assert(views(parts@).subrange(1, k + 1) =~= views(parts@).subrange(
                        1,
                        k as int,
                    ).push(parts@[k as int]@));
                    k = k + 1;
                }
                assert(views(parts@).subrange(1, parts.len() as int) =~= views(
                    parts@,
                ).drop_first());
                let sep = vec![' '];
                assert(sep@ =~= seq![' ']);
                let joined = join_chars(new_parts.as_slice(), sep.as_slice());
                self.input = string_of(joined.as_slice());
            }
            self.show_completions = false;
            self.update_filter();
        }
    }

    /// Move to next completion suggestion
    pub fn next_completion(&mut self)
        requires
            old(self).completions@.len() > 0 ==> old(self).completion_index < usize::MAX,
        ensures
            final(self).completion_index == next_completion_index(
                old(self).completions@.len(),
                old(self).completion_index,
            ),
            final(self).input == old(self).input,
            final(self).filtered == old(self).filtered,
            final(self).all_commands == old(self).all_commands,
            final(self).selected == old(self).selected,
            final(self).completions == old(self).completions,
            final(self).show_completions == old(self).show_completions,
    {
        if self.completions.len() > 0 {
            self.completion_index = (self.completion_index + 1) % self.completions.len();
        }
    }

    /// Move to previous completion suggestion
    pub fn prev_completion(&mut self)
        ensures
            final(self).completion_index == prev_completion_index(
                old(self).completions@.len(),
                old(self).completion_index,
            ),
            final(self).input == old(self).input,
            final(self).filtered == old(self).filtered,
            final(self).all_commands == old(self).all_commands,
            final(self).selected == old(self).selected,
            final(self).completions == old(self).completions,
            final(self).show_completions == old(self).show_completions,
    {
        if self.completions.len() > 0 {
            self.completion_index = if self.completion_index == 0 {
                self.completions.len() - 1
            } else {
                self.completion_index - 1
            };
        }
    }

    /// Hide completions
    pub fn hide_completions(&mut self)
        ensures
            *final(self) == (CommandPaletteState { show_completions: false, ..*old(self) }),
    {
        self.show_completions = false;
    }

    /// Show completions if available
    pub fn show_completions_if_available(&mut self)
        ensures
            *final(self) == (CommandPaletteState {
                show_completions: old(self).completions@.len() > 0,
                ..*old(self)
            }),
    {
        self.show_completions = self.completions.len() > 0;
    }

    /// Parse the current input for command with arguments (e.g., "nf filename.txt")
    pub fn parse_command(&self) -> (r: Option<CommandAction>)
        ensures
            action_views(r) == parse_command_spec(self.input@, self.all_commands@),
    {
        let ic = chars_of(self.input.as_str());
        let t = trim_chars(ic.as_slice());
        if t.len() == 0 {
            return None;
        }
        let parts = split_words(t.as_slice());
        if parts.len() == 0 {
            return None;
        }
        let ghost ws = views(parts@);
        assert(ws[0] == parts@[0]@);
        let cmd = parts[0].as_slice();
        if chars_eq(cmd, chars_of("nf").as_slice()) || chars_eq(cmd, chars_of("nd").as_slice()) {
            let is_nf = chars_eq(cmd, chars_of("nf").as_slice());
            if parts.len() > 1 {
                let rest_parts = parts.as_slice().split_at(1).1;
                assert(views(rest_parts@) =~= ws.drop_first());
                let sep = vec![' '];
                assert(sep@ =~= seq![' ']);
                let rest = string_of(join_chars(rest_parts, sep.as_slice()).as_slice());
                if is_nf {
                    Some(CommandAction::NewFileWithName(rest))
                } else {
                    Some(CommandAction::NewFolderWithName(rest))
                }
            } else if is_nf {
                Some(CommandAction::NewFile)
            } else {
                Some(CommandAction::NewFolder)
            }
        } else if chars_eq(cmd, chars_of("reload").as_slice()) {
            Some(CommandAction::Reload)
        } else if chars_eq(cmd, chars_of("grep").as_slice()) {
            Some(CommandAction::SearchContent)
        } else if chars_eq(cmd, chars_of("config").as_slice()) {
            Some(CommandAction::OpenConfig)
        } else {
            let ts = string_of(t.as_slice());
            let lq = to_lowercase(ts.as_str());
            let q = chars_of(lq.as_str());
            let n = self.all_commands.len();
            let mut i: usize = 0;
            assert(self.all_commands@.subrange(0, n as int) =~= self.all_commands@);
            assert(parse_command_spec(self.input@, self.all_commands@) == first_title_match(
                self.all_commands@,
                q@,
            ));
            while i < n
                invariant
                    n == self.all_commands.len(),
                    parse_command_spec(self.input@, self.all_commands@) == first_title_match(
                        self.all_commands@,
                        q@,
                    ),
                    i <= n,
                    q@ == lowercase(trim(self.input@)),
                    first_title_match(self.all_commands@, q@) == first_title_match(
                        self.all_commands@.subrange(i as int, n as int),
                        q@,
                    ),
                decreases n - i,
            {
                let title = to_lowercase(self.all_commands[i].title.as_str());
                let tc = chars_of(title.as_str());
                assert(self.all_commands@.subrange(i as int, n as int)[0]
                    == self.all_commands@[i as int]);
                if chars_contains(tc.as_slice(), q.as_slice()) {
                    assert(title_matches(self.all_commands@[i as int], q@));
                    assert(first_title_match(self.all_commands@.subrange(i as int, n as int), q@)
                        == Some(self.all_commands@[i as int].action@));
                    let a = self.all_commands[i].action.clone();
                    return Some(a);
                }
                assert(self.all_commands@.subrange(i as int, n as int).drop_first()
                    =~= self.all_commands@.subrange(i + 1, n as int));
                i = i + 1;
            }
            None
        }
    }
}

impl Default for CommandPaletteState {
    fn default() -> (r: Self)
        ensures
            r.input@ == Seq::<char>::empty(),
            r.filtered@ == Seq::<Command>::empty(),
            r.all_commands@ == Seq::<Command>::empty(),
            r.selected == 0,
            r.completions@.len() == 0,
            r.completion_index == 0,
            !r.show_completions,
    {
        Self::new(Vec::new())
    }
}

/// Get command descriptions for enhanced completions
pub fn get_command_description(command: &str) -> (r: Option<&'static str>)
    ensures
        (match r {
            Some(d) => Some(d@),
            None => None,
        }) == description_of(command@),
{
    let c = chars_of(command);
    let cs = c.as_slice();
    if chars_eq(cs, chars_of("nf").as_slice()) {
        Some("Create a new file")
    } else if chars_eq(cs, chars_of("nd").as_slice()) {
        Some("Create a new folder")
    } else if chars_eq(cs, chars_of("reload").as_slice()) {
        Some("Reload current directory")
    } else if chars_eq(cs, chars_of("grep").as_slice()) {
        Some("Enter content search overlay")
    } else if chars_eq(cs, chars_of("config").as_slice()) {
        Some("Open configuration")
    } else {
        None
    }
}

/// Get all available commands with descriptions for help documentation
pub fn get_all_commands_with_descriptions() -> (r: Vec<(&'static str, &'static str, &'static str)>)
    ensures
        r@.len() == 5,
        r@[0].0@ == "nf"@ && r@[0].1@ == ""@ && r@[0].2@ == "Create a new file (nf [filename])"@,
        r@[1].0@ == "nd"@ && r@[1].1@ == ""@ && r@[1].2@
            == "Create a new folder (nd [foldername])"@,
        r@[2].0@ == "reload"@ && r@[2].1@ == ""@ && r@[2].2@ == "Reload current directory"@,
        r@[3].0@ == "grep"@ && r@[3].1@ == ""@ && r@[3].2@ == "Enter content search overlay"@,
        r@[4].0@ == "config"@ && r@[4].1@ == ""@ && r@[4].2@ == "Open configuration"@,
{
    let mut v = Vec::new();
    v.push(("nf", "", "Create a new file (nf [filename])"));
    v.push(("nd", "", "Create a new folder (nd [foldername])"));
    v.push(("reload", "", "Reload current directory"));
    v.push(("grep", "", "Enter content search overlay"));
    v.push(("config", "", "Open configuration"));
    v
}

} // verus!
