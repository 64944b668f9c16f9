//! The prompt: how a line is read as a command and its arguments, and which
//! commands complete what was typed.
use crate::text::{chars_of, push_char, str_equal, string_views, trim, trimmed};
use vstd::prelude::*;

verus! {

/// The words of a line: its longest runs of characters other than a blank,
/// in their order.
pub open spec fn words(line: Seq<char>) -> Seq<Seq<char>>
    decreases line.len(),
{
    if line.len() == 0 {
        Seq::empty()
    } else {
        let front = line.drop_last();
        let before = words(front);
        if line.last() == ' ' {
            before
        } else if front.len() > 0 && front.last() != ' ' {
            before.drop_last().push(before.last().push(line.last()))
        } else {
            before.push(seq![line.last()])
        }
    }
}

/// The words of a line without the white space at its two ends.
pub fn split_line(line: &str) -> (tokens: Vec<String>)
    ensures
        string_views(tokens@) == words(trimmed(line@)),
{
    split_words(trim(line))
}

/// The words of a line.
pub fn split_words(line: &str) -> (tokens: Vec<String>)
    ensures
        string_views(tokens@) == words(line@),
{
    let chars = chars_of(line);
    let mut tokens: Vec<String> = Vec::new();
    let mut current = String::new();
    let mut open = false;
    let mut i: usize = 0;
    assert(chars@.take(0) =~= Seq::<char>::empty());
    assert(string_views(tokens@) =~= Seq::<Seq<char>>::empty());
    while i < chars.len()
        invariant
            i <= chars.len(),
            open <==> i > 0 && chars@[i - 1] != ' ',
            open ==> words(chars@.take(i as int)) == string_views(tokens@).push(current@),
            !open ==> words(chars@.take(i as int)) == string_views(tokens@) && current@.len() == 0,
        decreases chars.len() - i,
    {
        let c = chars[i];
        let ghost views = string_views(tokens@);
        let ghost word = current@;
        proof {
            let prefix = chars@.take(i + 1);
            assert(prefix.drop_last() =~= chars@.take(i as int));
            assert(prefix.last() == c);
            if i > 0 {
                assert(chars@.take(i as int).last() == chars@[i - 1]);
            }
        }
        if c == ' ' {
            if open {
                tokens.push(current);
                current = String::new();
                open = false;
                assert(string_views(tokens@) =~= views.push(word));
            }
        } else {
            push_char(&mut current, c);
            proof {
                if open {
                    assert(views.push(word).drop_last() =~= views);
                } else {
                    assert(word.push(c) =~= seq![c]);
                }
            }
            open = true;
        }
        i += 1;
    }
    assert(chars@.take(i as int) =~= chars@);
    if open {
        let ghost views = string_views(tokens@);
        tokens.push(current);
        assert(string_views(tokens@) =~= views.push(current@));
    }
    tokens
}

/// What the prompt does with a line.
#[derive(Debug, Clone, Copy, PartialEq, Eq, Structural)]
pub enum Action {
    /// The line holds no word: nothing is done.
    Nothing,
    /// The help table is shown.
    Help,
    /// The command at this place in the list of commands is done, with the
    /// words behind the first as its arguments.
    Run(usize),
    /// The first word names no command.
    Unknown,
}

/// `i` is the last place of `name` among `names`.
pub open spec fn is_last_place(names: Seq<Seq<char>>, name: Seq<char>, i: int) -> bool {
    &&& 0 <= i < names.len()
    &&& names[i] == name
    &&& forall|k: int| i < k < names.len() ==> names[k] != name
}

/// The last place of `name` among `names`.
pub open spec fn last_place(names: Seq<Seq<char>>, name: Seq<char>) -> int {
    choose|i: int| is_last_place(names, name, i)
}

/// What the prompt does with the words of a line, given the names of its
/// commands: the first word decides, and "help" comes before any command of
/// that name. Of two commands of one name the later is done.
pub open spec fn action_for(names: Seq<Seq<char>>, line: Seq<Seq<char>>) -> Action {
    if line.len() == 0 {
        Action::Nothing
    } else if line[0] == "help"@ {
        Action::Help
    } else if names.contains(line[0]) {
        Action::Run(last_place(names, line[0]) as usize)
    } else {
        Action::Unknown
    }
}

/// Decides what the prompt does with the words of a line.
pub fn interact(names: &Vec<String>, line: &Vec<String>) -> (action: Action)
    ensures
        action == action_for(string_views(names@), string_views(line@)),
{
    if line.len() == 0 {
        return Action::Nothing;
    }
    let first = line[0].as_str();
    if str_equal(first, "help") {
        return Action::Help;
    }
    let ghost views = string_views(names@);
    let mut i: usize = names.len();
    while i > 0
        invariant
            i <= names.len(),
            views == string_views(names@),
            line@.len() > 0,
            first@ == string_views(line@)[0],
            first@ != "help"@,
            forall|k: int| i <= k < names.len() ==> views[k] != first@,
        decreases i,
    {
        i -= 1;
        if str_equal(names[i].as_str(), first) {
            proof {
                assert(views[i as int] == first@);
                assert(views.contains(first@));
                assert(is_last_place(views, first@, i as int));
                let found = last_place(views, first@);
                assert(is_last_place(views, first@, found));
                assert(found == i);
            }
            return Action::Run(i);
        }
    }
    assert(!views.contains(first@));
    Action::Unknown
}

/// The names of the commands, to complete a line from.
pub struct CmdCompleter {
    commands: Vec<String>,
}

/// The commands that begin with `line`, each with a blank behind it.
pub open spec fn completions(commands: Seq<Seq<char>>, line: Seq<char>) -> Seq<Seq<char>> {
    commands.filter(|name: Seq<char>| line.is_prefix_of(name)).map_values(
        |name: Seq<char>| name.push(' '),
    )
}

impl View for CmdCompleter {
    type V = Seq<Seq<char>>;

    closed spec fn view(&self) -> Seq<Seq<char>> {
        string_views(self.commands@)
    }
}

impl CmdCompleter {
    pub fn new() -> (completer: Self)
        ensures
            completer@ == Seq::<Seq<char>>::empty(),
    {
        let completer = CmdCompleter { commands: Vec::new() };
        assert(completer@ =~= Seq::<Seq<char>>::empty());
        completer
    }

    pub fn add_command(&mut self, cmd: String)
        ensures
            final(self)@ == old(self)@.push(cmd@),
    {
        self.commands.push(cmd);
        assert(self@ =~= old(self)@.push(cmd@));
    }

    /// The commands that begin with what was typed, each with a blank
    /// behind it.
    pub fn complete(&self, line: &str) -> (candidates: Vec<String>)
        ensures
            string_views(candidates@) == completions(self@, line@),
    {
        let typed = chars_of(line);
        let ghost begins = |name: Seq<char>| line@.is_prefix_of(name);
        let ghost blank = |name: Seq<char>| name.push(' ');
        let mut candidates: Vec<String> = Vec::new();
        let mut i: usize = 0;
        assert(self@.take(0).filter(begins) =~= Seq::<Seq<char>>::empty()) by {
            self@.take(0).lemma_filter_len(begins);
        }
        assert(string_views(candidates@) =~= self@.take(0).filter(begins).map_values(blank));
        while i < self.commands.len()
            invariant
                i <= self.commands.len(),
                typed@ == line@,
                begins == |name: Seq<char>| line@.is_prefix_of(name),
                blank == |name: Seq<char>| name.push(' '),
                string_views(candidates@) == self@.take(i as int).filter(begins).map_values(blank),
            decreases self.commands.len() - i,
        {
            let name = &self.commands[i];
            let hit = starts_with(&chars_of(name.as_str()), &typed);
            proof {
                let front = self@.take(i as int);
                assert(self@.take(i + 1) =~= front.push(name@));
                front.lemma_filter_push(name@, begins);
                assert(hit == begins(name@));
            }
            if hit {
                let ghost before = string_views(candidates@);
                let mut candidate = name.clone();
                push_char(&mut candidate, ' ');
                candidates.push(candidate);
                proof {
                    let front = self@.take(i as int);
                    assert(string_views(candidates@) =~= before.push(name@.push(' ')));
                    assert(front.filter(begins).push(name@).map_values(blank) =~= front.filter(
                        begins,
                    ).map_values(blank).push(name@.push(' ')));
                }
            }
            i += 1;
        }
        assert(self@.take(i as int) =~= self@);
        candidates
    }
}

/// Tells whether `s` begins with `prefix`.
pub fn starts_with(s: &Vec<char>, prefix: &Vec<char>) -> (begins: bool)
    ensures
        begins == prefix@.is_prefix_of(s@),
{
    if prefix.len() > s.len() {
        return false;
    }
    let mut i: usize = 0;
    while i < prefix.len()
        invariant
            i <= prefix.len() <= s.len(),
            forall|k: int| 0 <= k < i ==> s@[k] == prefix@[k],
        decreases prefix.len() - i,
    {
        if s[i] != prefix[i] {
            assert(s@.subrange(0, prefix@.len() as int)[i as int] != prefix@[i as int]);
            return false;
        }
        i += 1;
    }
    assert(s@.subrange(0, prefix@.len() as int) =~= prefix@);
    true
}

} // verus!
