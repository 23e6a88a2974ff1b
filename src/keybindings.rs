use vstd::prelude::*;
use vstd::string::*;

use crate::xdg_shell::Corrosion;

verus! {

/// The modifier keys held at one moment.
#[derive(Clone, Copy, Debug, PartialEq, Eq, Structural)]
pub struct ModifiersState {
    pub ctrl: bool,
    pub alt: bool,
    pub shift: bool,
    pub logo: bool,
}

/// True iff `name` is the configured name of a modifier that `state` holds.
pub open spec fn primary_modifier_held(name: Seq<char>, state: ModifiersState) -> bool {
    (name == "ctrl"@ && state.ctrl) || (name == "alt"@ && state.alt) || (name == "shift"@
        && state.shift) || (name == "super"@ && state.logo)
}

/// Each of the four modifier names tests its own field of the state and no
/// other; any other name never matches.
pub proof fn modifier_names_test_their_field(state: ModifiersState, name: Seq<char>)
    ensures
        primary_modifier_held("ctrl"@, state) == state.ctrl,
        primary_modifier_held("alt"@, state) == state.alt,
        primary_modifier_held("shift"@, state) == state.shift,
        primary_modifier_held("super"@, state) == state.logo,
        name != "ctrl"@ && name != "alt"@ && name != "shift"@ && name != "super"@
            ==> !primary_modifier_held(name, state),
{
    reveal_strlit("ctrl");
    reveal_strlit("alt");
    reveal_strlit("shift");
    reveal_strlit("super");
    assert("ctrl"@.len() == 4 && "alt"@.len() == 3 && "shift"@.len() == 5 && "super"@.len() == 5);
    assert("ctrl"@ != "alt"@ && "ctrl"@ != "shift"@ && "ctrl"@ != "super"@);
    assert("alt"@ != "shift"@ && "alt"@ != "super"@);
    assert("shift"@[1] != "super"@[1]);
}

/// The modifier name in force: the configured one, or `alt` when none is set.
pub open spec fn configured_modifier(configured: Option<Seq<char>>) -> Seq<char> {
    match configured {
        Some(name) => name,
        None => "alt"@,
    }
}

/// Compares two strings character by character.
fn same_text(a: &str, b: &str) -> (r: bool)
    ensures
        r == (a@ == b@),
{
    let n = a.unicode_len();
    if n != b.unicode_len() {
        return false;
    }
    let mut i: usize = 0;
    while i < n
        invariant
            n == a@.len(),
            n == b@.len(),
            i <= n,
            a@.subrange(0, i as int) == b@.subrange(0, i as int),
        decreases n - i,
    {
        if a.get_char(i) != b.get_char(i) {
            return false;
        }
        assert(a@.subrange(0, i + 1) == a@.subrange(0, i as int).push(a@[i as int]));
        assert(b@.subrange(0, i + 1) == b@.subrange(0, i as int).push(b@[i as int]));
        i = i + 1;
    }
    assert(a@ == a@.subrange(0, n as int));
    assert(b@ == b@.subrange(0, n as int));
    true
}

/// Whether the primary modifier is held in `state`. `mod_key` is the configured
/// modifier name (`ctrl`, `alt`, `shift` or `super`); `None` selects `alt`. A name
/// outside those four never matches.
pub fn get_mod_key_and_compare(mod_key: Option<&str>, state: &ModifiersState) -> (r: bool)
    ensures
        r == primary_modifier_held(
            configured_modifier(
                match mod_key {
                    Some(s) => Some(s@),
                    None => None,
                },
            ),
            *state,
        ),
{
    let name: &str = match mod_key {
        Some(s) => s,
        None => "alt",
    };
    (same_text(name, "ctrl") && state.ctrl) || (same_text(name, "alt") && state.alt) || (
    same_text(name, "shift") && state.shift) || (same_text(name, "super") && state.logo)
}

/// The characters that separate the words of a command line: Unicode's
/// White_Space set.
pub open spec fn is_separator(c: char) -> bool {
    let u = c as u32;
    (0x09 <= u && u <= 0x0D) || u == 0x20 || u == 0x85 || u == 0xA0 || u == 0x1680 || (0x2000
        <= u && u <= 0x200A) || u == 0x2028 || u == 0x2029 || u == 0x202F || u == 0x205F || u
        == 0x3000
}

/// Tests whether `c` separates the words of a command line.
fn separates_words(c: char) -> (r: bool)
    ensures
        r == is_separator(c),
{
    let u = c as u32;
    (0x09 <= u && u <= 0x0D) || u == 0x20 || u == 0x85 || u == 0xA0 || u == 0x1680 || (0x2000
        <= u && u <= 0x200A) || u == 0x2028 || u == 0x2029 || u == 0x202F || u == 0x205F || u
        == 0x3000
}

/// The words of `s`, read from left to right, where `cur` is the part of a word
/// already read before `s`.
pub open spec fn words_from(s: Seq<char>, cur: Seq<char>) -> Seq<Seq<char>>
    decreases s.len(),
{
    if s.len() == 0 {
        if cur.len() == 0 {
            seq![]
        } else {
            seq![cur]
        }
    } else if is_separator(s[0]) {
        if cur.len() == 0 {
            words_from(s.drop_first(), seq![])
        } else {
            seq![cur] + words_from(s.drop_first(), seq![])
        }
    } else {
        words_from(s.drop_first(), cur.push(s[0]))
    }
}

/// The maximal runs of non-separator characters of `s`, in order.
pub open spec fn words(s: Seq<char>) -> Seq<Seq<char>> {
    words_from(s, seq![])
}

/// The texts of a list of strings.
pub open spec fn texts(v: Seq<String>) -> Seq<Seq<char>> {
    v.map_values(|w: String| w@)
}

/// Splits a command line into its words. There is no quoting: a word never holds
/// a separator.
pub fn split_command_line(line: &str) -> (r: Vec<String>)
    ensures
        texts(r@) == words(line@),
{
    let n = line.unicode_len();
    let mut out: Vec<String> = Vec::new();
    let mut start: usize = 0;
    let mut i: usize = 0;
    assert(texts(out@) =~= Seq::<Seq<char>>::empty());
    assert(line@.subrange(0, n as int) =~= line@);
    assert(line@.subrange(0, 0) =~= Seq::<char>::empty());
    assert(texts(out@) + words(line@) =~= words(line@));
    while i < n
        invariant
            n == line@.len(),
            start <= i <= n,
            texts(out@) + words_from(line@.subrange(i as int, n as int), line@.subrange(start as int, i as int))
                == words(line@),
        decreases n - i,
    {
        let c = line.get_char(i);
        let ghost rest = line@.subrange(i as int, n as int);
        let ghost cur = line@.subrange(start as int, i as int);
        assert(rest.drop_first() =~= line@.subrange(i + 1, n as int));
        assert(rest[0] == c);
        if separates_words(c) {
            if start < i {
                let w = line.substring_char(start, i).to_owned();
                let ghost before = out@;
                out.push(w);
                assert(texts(out@) =~= texts(before).push(cur));
                assert(texts(before).push(cur) + words_from(line@.subrange(i + 1, n as int), seq![])
                    =~= texts(before) + (seq![cur] + words_from(line@.subrange(i + 1, n as int), seq![])));
            }
            start = i + 1;
            assert(line@.subrange(start as int, i + 1) =~= Seq::<char>::empty());
        } else {
            assert(line@.subrange(start as int, i + 1) =~= cur.push(c));
        }
        i = i + 1;
    }
    let ghost cur = line@.subrange(start as int, n as int);
    assert(line@.subrange(n as int, n as int) =~= Seq::<char>::empty());
    if start < n {
        let w = line.substring_char(start, n).to_owned();
        let ghost before = out@;
        out.push(w);
        assert(texts(out@) =~= texts(before).push(cur));
        assert(texts(before) + seq![cur] =~= texts(before).push(cur));
    } else {
        assert(texts(out@) + seq![] =~= texts(out@));
    }
    out
}

/// An action bound to a key. `CloseWindow` and `Launcher` are accepted but not
/// acted on yet.
pub enum KeyAction {
    Quit,
    CloseWindow,
    Spawn(String),
    Launcher(String),
}

/// A program to start detached, with its arguments.
pub struct SpawnCommand {
    pub program: String,
    pub args: Vec<String>,
}

/// What the compositor has to do for a key action.
pub enum KeyEffect {
    /// Start the program, without waiting for it or keeping a handle to it.
    Spawn(SpawnCommand),
    /// Ask the event loop to stop: the compositor shuts down.
    StopLoop,
    /// The spawn binding holds no program: report it and do nothing else.
    MalformedSpawn,
    /// The action is not acted on yet: report it and do nothing else.
    NotImplemented,
}

/// `effect` starts `program` with `args` (as texts).
pub open spec fn spawns(effect: KeyEffect, program: Seq<char>, args: Seq<Seq<char>>) -> bool {
    match effect {
        KeyEffect::Spawn(cmd) => cmd.program@ == program && texts(cmd.args@) == args,
        _ => false,
    }
}

/// The effect of a spawn binding with command line `line`.
pub open spec fn spawn_effect_ok(line: Seq<char>, effect: KeyEffect) -> bool {
    if words(line).len() == 0 {
        effect is MalformedSpawn
    } else {
        spawns(effect, words(line)[0], words(line).drop_first())
    }
}

impl Corrosion {
    /// Decides what a key action does: a spawn binding starts its first word with
    /// the other words as arguments, `Quit` stops the event loop, and the other
    /// actions do nothing yet.
    pub fn parse_keybindings(&self, action: KeyAction) -> (r: KeyEffect)
        ensures
            match action {
                KeyAction::Quit => r is StopLoop,
                KeyAction::CloseWindow => r is NotImplemented,
                KeyAction::Launcher(_) => r is NotImplemented,
                KeyAction::Spawn(line) => spawn_effect_ok(line@, r),
            },
    {
        match action {
            KeyAction::Spawn(line) => {
                let mut args = split_command_line(line.as_str());
                if args.len() == 0 {
                    return KeyEffect::MalformedSpawn;
                }
                let ghost all = args@;
                let program = args.remove(0);
                assert(texts(args@) =~= texts(all).drop_first());
                KeyEffect::Spawn(SpawnCommand { program, args })
            },
            KeyAction::Quit => KeyEffect::StopLoop,
            KeyAction::CloseWindow => KeyEffect::NotImplemented,
            KeyAction::Launcher(_) => KeyEffect::NotImplemented,
        }
    }
}

} // verus!
