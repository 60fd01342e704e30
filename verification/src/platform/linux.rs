//! Linux backend decisions: which evdev events carry thumb-wheel motion,
//! which key events a volume step becomes on the virtual uinput keyboard,
//! and the XDG autostart entry.

use crate::wheel::VolumeStep;
use vstd::prelude::*;

verus! {

/// `EV_KEY`, the evdev event type of key presses.
pub const EV_KEY: u16 = 0x01;

/// `EV_REL`, the evdev event type of relative-axis motion.
pub const EV_REL: u16 = 0x02;

/// `REL_HWHEEL`, the horizontal (thumb) wheel axis.
pub const REL_HWHEEL: u16 = 0x06;

/// `KEY_VOLUMEDOWN`.
pub const KEY_VOLUMEDOWN: u16 = 114;

/// `KEY_VOLUMEUP`.
pub const KEY_VOLUMEUP: u16 = 115;

/// The wheel delta an input event carries: its value, when it is horizontal
/// wheel motion; nothing for any other event.
pub fn hwheel_value(event_type: u16, code: u16, value: i32) -> (r: Option<i32>)
    ensures
        r == (if event_type == EV_REL && code == REL_HWHEEL {
            Some(value)
        } else {
            None::<i32>
        }),
{
    if event_type == EV_REL && code == REL_HWHEEL {
        Some(value)
    } else {
        None
    }
}

/// One input event to write to the virtual keyboard.
#[derive(Debug, Clone, Copy, PartialEq, Eq)]
pub struct KeyEvent {
    pub event_type: u16,
    pub code: u16,
    pub value: i32,
}

/// The key code a volume step is sent as.
pub open spec fn volume_key_code(step: VolumeStep) -> u16 {
    match step {
        VolumeStep::Up => KEY_VOLUMEUP,
        VolumeStep::Down => KEY_VOLUMEDOWN,
    }
}

/// The events that send one volume step: a press, then a release, of the
/// matching volume key.
pub fn volume_key_events(step: VolumeStep) -> (events: Vec<KeyEvent>)
    ensures
        events@ == seq![
            KeyEvent { event_type: EV_KEY, code: volume_key_code(step), value: 1 },
            KeyEvent { event_type: EV_KEY, code: volume_key_code(step), value: 0 },
        ],
{
    let code = match step {
        VolumeStep::Up => KEY_VOLUMEUP,
        VolumeStep::Down => KEY_VOLUMEDOWN,
    };
    let mut events = Vec::new();
    events.push(KeyEvent { event_type: EV_KEY, code, value: 1 });
    events.push(KeyEvent { event_type: EV_KEY, code, value: 0 });
    assert(events@ =~= seq![
        KeyEvent { event_type: EV_KEY, code: volume_key_code(step), value: 1 },
        KeyEvent { event_type: EV_KEY, code: volume_key_code(step), value: 0 },
    ]);
    events
}

/// The characters the Desktop Entry `Exec` key reserves inside a quoted
/// argument.
pub open spec fn is_reserved_in_exec(c: char) -> bool {
    c == '\\' || c == '"' || c == '`' || c == '$'
}

/// `s` with a backslash before each reserved character.
pub open spec fn exec_escaped(s: Seq<char>) -> Seq<char>
    decreases s.len(),
{
    if s.len() == 0 {
        Seq::empty()
    } else {
        exec_escaped(s.drop_last()) + (if is_reserved_in_exec(s.last()) {
            seq!['\\', s.last()]
        } else {
            seq![s.last()]
        })
    }
}

/// `s` as one quoted `Exec` argument.
pub open spec fn exec_quoted(s: Seq<char>) -> Seq<char> {
    seq!['"'] + exec_escaped(s) + seq!['"']
}

/// Quotes and escapes `arg` per the Desktop Entry Specification's `Exec` key
/// rules, so a path is treated as a single argument instead of being
/// word-split on spaces.
pub fn escape_desktop_exec_arg(arg: &str) -> (escaped: String)
    ensures
        escaped@ == exec_quoted(arg@),
        (forall|i: int|
            0 <= i < arg@.len() ==> #[trigger] arg@[i] != '\\' && arg@[i] != '"' && arg@[i] != '`'
                && arg@[i] != '$') ==> escaped@ == seq!['"'] + arg@ + seq!['"'],
{
    proof {
        if forall|i: int|
            0 <= i < arg@.len() ==> #[trigger] arg@[i] != '\\' && arg@[i] != '"' && arg@[i] != '`'
                && arg@[i] != '$' {
            lemma_exec_escaped_plain(arg@);
        }
    }
    let mut escaped = String::new();
    escaped.push('"');
    let len = arg.unicode_len();
    let mut i: usize = 0;
    while i < len
        invariant
            len == arg@.len(),
            i <= len,
            escaped@ == seq!['"'] + exec_escaped(arg@.take(i as int)),
        decreases len - i,
    {
        let ch = arg.get_char(i);
        if ch == '\\' || ch == '"' || ch == '`' || ch == '$' {
            escaped.push('\\');
        }
        escaped.push(ch);
        proof {
            assert(arg@.take(i + 1).drop_last() =~= arg@.take(i as int));
            assert(arg@.take(i + 1).last() == ch);
        }
        i = i + 1;
        assert(escaped@ =~= seq!['"'] + exec_escaped(arg@.take(i as int)));
    }
    escaped.push('"');
    assert(arg@.take(len as int) =~= arg@);
    assert(escaped@ =~= exec_quoted(arg@));
    escaped
}

/// One character as it stands in an escaped `Exec` argument.
pub open spec fn exec_escaped_char(c: char) -> Seq<char> {
    if is_reserved_in_exec(c) {
        seq!['\\', c]
    } else {
        seq![c]
    }
}

/// The body of a quoted `Exec` argument read back: a backslash takes the
/// character after it literally.
pub open spec fn exec_unescaped(t: Seq<char>) -> Seq<char>
    decreases t.len(),
{
    if t.len() == 0 {
        Seq::empty()
    } else if t[0] == '\\' && t.len() >= 2 {
        seq![t[1]] + exec_unescaped(t.subrange(2, t.len() as int))
    } else {
        seq![t[0]] + exec_unescaped(t.drop_first())
    }
}

proof fn lemma_exec_escaped_front(c: char, rest: Seq<char>)
    ensures
        exec_escaped(seq![c] + rest) == exec_escaped_char(c) + exec_escaped(rest),
    decreases rest.len(),
{
    let u = seq![c] + rest;
    if rest.len() == 0 {
        assert(u.drop_last() =~= Seq::<char>::empty());
        assert(rest =~= Seq::<char>::empty());
        assert(exec_escaped(Seq::<char>::empty()) =~= Seq::<char>::empty());
        assert(u.last() == c);
        assert(exec_escaped(u) =~= exec_escaped_char(c) + exec_escaped(rest));
    } else {
        assert(u.drop_last() =~= seq![c] + rest.drop_last());
        assert(u.last() == rest.last());
        lemma_exec_escaped_front(c, rest.drop_last());
        assert(exec_escaped(u) =~= exec_escaped_char(c) + exec_escaped(rest));
    }
}

/// Escaping loses nothing: reading the escaped argument back gives the
/// original path, whatever characters it holds.
pub proof fn lemma_exec_escape_round_trip(s: Seq<char>)
    ensures
        exec_unescaped(exec_escaped(s)) == s,
    decreases s.len(),
{
    if s.len() > 0 {
        let c = s[0];
        let rest = s.drop_first();
        assert(s =~= seq![c] + rest);
        lemma_exec_escaped_front(c, rest);
        lemma_exec_escape_round_trip(rest);
        let t = exec_escaped(s);
        if is_reserved_in_exec(c) {
            assert(t.subrange(2, t.len() as int) =~= exec_escaped(rest));
        } else {
            assert(t.drop_first() =~= exec_escaped(rest));
        }
        assert(exec_unescaped(t) =~= s);
    } else {
        assert(exec_escaped(s) =~= Seq::<char>::empty());
    }
}

/// A string without a backslash, double quote, backtick or dollar sign is
/// left exactly as it is.
pub proof fn lemma_exec_escaped_plain(s: Seq<char>)
    requires
        forall|i: int|
            0 <= i < s.len() ==> #[trigger] s[i] != '\\' && s[i] != '"' && s[i] != '`' && s[i] != '$',
    ensures
        exec_escaped(s) == s,
    decreases s.len(),
{
    if s.len() > 0 {
        let t = s.drop_last();
        assert forall|i: int| 0 <= i < t.len() implies #[trigger] t[i] != '\\' && t[i] != '"'
            && t[i] != '`' && t[i] != '$' by {
            assert(t[i] == s[i]);
        }
        lemma_exec_escaped_plain(t);
        assert(s.last() == s[s.len() - 1]);
        assert(exec_escaped(s) =~= s);
    }
}

/// Each of the four reserved characters (backslash, double quote, backtick,
/// dollar sign) gets exactly one backslash before it, and escaping works
/// character by character: escaping `a + b` is escaping `a`, then `b`.
pub proof fn lemma_exec_escaped_reserved(c: char, a: Seq<char>, b: Seq<char>)
    ensures
        (c == '\\' || c == '"' || c == '`' || c == '$') ==> exec_escaped(seq![c]) == seq!['\\', c],
        !(c == '\\' || c == '"' || c == '`' || c == '$') ==> exec_escaped(seq![c]) == seq![c],
        exec_escaped(a + b) == exec_escaped(a) + exec_escaped(b),
    decreases b.len(),
{
    assert(seq![c].drop_last() =~= Seq::<char>::empty());
    assert(exec_escaped(Seq::<char>::empty()) =~= Seq::<char>::empty());
    assert(exec_escaped(seq![c]) =~= exec_escaped_char(c));
    if b.len() == 0 {
        assert(a + b =~= a);
        assert(exec_escaped(a) + exec_escaped(b) =~= exec_escaped(a));
    } else {
        lemma_exec_escaped_reserved(c, a, b.drop_last());
        assert((a + b).drop_last() =~= a + b.drop_last());
        assert((a + b).last() == b.last());
        assert(exec_escaped(a + b) =~= exec_escaped(a) + exec_escaped(b));
    }
}

/// The text of the autostart entry before the `Exec` value.
pub open spec fn desktop_entry_head() -> Seq<char> {
    "[Desktop Entry]\nType=Application\nName=thumbvol\nComment=Thumb-wheel-to-volume daemon for Logitech MX Master mice\nExec="@
}

/// The text of the autostart entry after the `Exec` value.
pub open spec fn desktop_entry_tail() -> Seq<char> {
    "\nX-GNOME-Autostart-enabled=true\nNoDisplay=true\n"@
}

/// The XDG autostart `.desktop` entry that launches `exe_path`.
pub fn desktop_entry_contents(exe_path: &str) -> (contents: String)
    ensures
        contents@ == desktop_entry_head() + exec_quoted(exe_path@) + desktop_entry_tail(),
{
    let mut contents = String::from_str(
        "[Desktop Entry]\nType=Application\nName=thumbvol\nComment=Thumb-wheel-to-volume daemon for Logitech MX Master mice\nExec=",
    );
    let exec = escape_desktop_exec_arg(exe_path);
    contents.append(exec.as_str());
    contents.append("\nX-GNOME-Autostart-enabled=true\nNoDisplay=true\n");
    contents
}

} // verus!
