//! Rewriting of in-band colour codes into terminal escape sequences.

use vstd::prelude::*;
use vstd::string::StringExecFns;
use crate::text::{first_index, lemma_first_index, lemma_first_index_is};

verus! {

/// The section sign, which introduces a one-character colour code.
pub const MC_ESCAPE: char = '\u{a7}';

/// The character that starts a terminal escape sequence.
pub const ANSI_ESCAPE: char = '\u{1b}';

/// The escape sequence, without its leading escape character, that a colour
/// code stands for; `None` for a character that is no colour code.
pub open spec fn ansi_code(clr: char) -> Option<Seq<char>> {
    if clr == '4' {
        Some("[38;5;160m"@)
    } else if clr == 'c' {
        Some("[38;5;203m"@)
    } else if clr == '6' {
        Some("[38;5;208m"@)
    } else if clr == 'e' {
        Some("[38;5;220m"@)
    } else if clr == '2' {
        Some("[38;5;34m"@)
    } else if clr == 'a' {
        Some("[38;5;82m"@)
    } else if clr == 'b' {
        Some("[38;5;51m"@)
    } else if clr == '3' {
        Some("[38;5;38m"@)
    } else if clr == '1' {
        Some("[38;5;26m"@)
    } else if clr == '9' {
        Some("[38;5;33m"@)
    } else if clr == 'd' {
        Some("[38;5;200m"@)
    } else if clr == '5' {
        Some("[38;5;171m"@)
    } else if clr == 'f' {
        Some("[0m"@)
    } else if clr == '7' {
        Some("[38;5;248m"@)
    } else if clr == '8' {
        Some("[38;5;242m"@)
    } else if clr == '0' {
        Some("[38;5;235m"@)
    } else {
        None
    }
}

/// Looks a colour code up in the table of the sixteen known codes.
pub fn mc_to_ansi(clr: char) -> (code: Option<&'static str>)
    ensures
        match code {
            Some(s) => ansi_code(clr) == Some(s@),
            None => ansi_code(clr) is None,
        },
{
    match clr {
        '4' => Some("[38;5;160m"),  // dark red
        'c' => Some("[38;5;203m"),  // red
        '6' => Some("[38;5;208m"),  // gold
        'e' => Some("[38;5;220m"),  // yellow
        '2' => Some("[38;5;34m"),  // dark green
        'a' => Some("[38;5;82m"),  // green
        'b' => Some("[38;5;51m"),  // aqua
        '3' => Some("[38;5;38m"),  // dark aqua
        '1' => Some("[38;5;26m"),  // dark blue
        '9' => Some("[38;5;33m"),  // blue
        'd' => Some("[38;5;200m"),  // light purple
        '5' => Some("[38;5;171m"),  // dark purple
        'f' => Some("[0m"),  // white: resets the colour
        '7' => Some("[38;5;248m"),  // gray
        '8' => Some("[38;5;242m"),  // dark gray
        '0' => Some("[38;5;235m"),  // black
        _ => None,
    }
}

/// What is written for a code character: the escape sequence of a known
/// code when colours are on, nothing for a known code when they are off,
/// and the marker with the character itself for anything else.
pub open spec fn render_code(clr: char, color: bool) -> Seq<char> {
    match ansi_code(clr) {
        Some(code) => if color {
            seq![ANSI_ESCAPE] + code
        } else {
            Seq::empty()
        },
        None => seq![MC_ESCAPE, clr],
    }
}

/// What a segment that followed a marker turns into. Its first character
/// is the code character, the rest is plain text; an empty segment leaves
/// nothing behind.
pub open spec fn render_segment(seg: Seq<char>, color: bool) -> Seq<char> {
    if seg.len() == 0 {
        Seq::empty()
    } else {
        render_code(seg[0], color) + seg.skip(1)
    }
}

/// What the text behind a marker turns into: its segments, one after the
/// other, each rewritten by `render_segment`.
pub open spec fn render_segments(rest: Seq<char>, color: bool) -> Seq<char>
    decreases rest.len(),
{
    let n = first_index(rest, MC_ESCAPE);
    if 0 <= n < rest.len() {
        render_segment(rest.take(n), color) + render_segments(rest.skip(n + 1), color)
    } else {
        render_segment(rest, color)
    }
}

/// The rewritten form of `input`: the text before the first marker as it
/// stands, then the rewritten segments that the markers delimit.
pub open spec fn render(input: Seq<char>, color: bool) -> Seq<char> {
    let n = first_index(input, MC_ESCAPE);
    if 0 <= n < input.len() {
        input.take(n) + render_segments(input.skip(n + 1), color)
    } else {
        input
    }
}

/// A character that is no marker, at the head of the input, is written as
/// it stands.
proof fn lemma_render_plain(s: Seq<char>, color: bool)
    requires
        s.len() > 0,
        s[0] != MC_ESCAPE,
    ensures
        render(s, color) == seq![s[0]] + render(s.skip(1), color),
{
    let t = s.skip(1);
    let n = first_index(s, MC_ESCAPE);
    lemma_first_index(s, MC_ESCAPE);
    lemma_first_index(t, MC_ESCAPE);
    assert(n == 1 + first_index(t, MC_ESCAPE));
    if n < s.len() {
        assert(s.take(n) =~= seq![s[0]] + t.take(n - 1));
        assert(s.skip(n + 1) =~= t.skip(n));
        assert(render(s, color) =~= seq![s[0]] + render(t, color));
    } else {
        assert(s =~= seq![s[0]] + t);
    }
}

/// A marker at the head of the input starts the first segment.
proof fn lemma_render_marker(s: Seq<char>, color: bool)
    requires
        s.len() > 0,
        s[0] == MC_ESCAPE,
    ensures
        render(s, color) == render_segments(s.skip(1), color),
{
    assert(s.take(0) =~= Seq::<char>::empty());
    assert(render(s, color) =~= render_segments(s.skip(1), color));
}

/// A marker right behind a marker leaves nothing of the first one.
proof fn lemma_segments_marker(r: Seq<char>, color: bool)
    requires
        r.len() > 0,
        r[0] == MC_ESCAPE,
    ensures
        render_segments(r, color) == render_segments(r.skip(1), color),
{
    assert(r.take(0) =~= Seq::<char>::empty());
    assert(render_segments(r, color) =~= render_segments(r.skip(1), color));
}

/// A code character behind a marker is rewritten, and what follows it is
/// plain text up to the next marker.
proof fn lemma_segments_code(r: Seq<char>, color: bool)
    requires
        r.len() > 0,
        r[0] != MC_ESCAPE,
    ensures
        render_segments(r, color) == render_code(r[0], color) + render(r.skip(1), color),
{
    let t = r.skip(1);
    let n = first_index(r, MC_ESCAPE);
    lemma_first_index(r, MC_ESCAPE);
    lemma_first_index(t, MC_ESCAPE);
    assert(n == 1 + first_index(t, MC_ESCAPE));
    if n < r.len() {
        let seg = r.take(n);
        assert(seg.skip(1) =~= t.take(n - 1));
        assert(r.skip(n + 1) =~= t.skip(n));
        assert(render_segments(r, color) =~= render_code(r[0], color) + render(t, color));
    } else {
        assert(render_segments(r, color) =~= render_code(r[0], color) + render(t, color));
    }
}

/// What is still to be written for the input `rest`, which is plain text
/// unless a marker stood right before it.
pub open spec fn render_rest(rest: Seq<char>, color: bool, pending: bool) -> Seq<char> {
    if pending {
        render_segments(rest, color)
    } else {
        render(rest, color)
    }
}

/// Rewrites colour-coded text into text for a terminal, in a buffer that
/// it owns and uses again on every call.
pub struct Transformer {
    buf: String,
    disable_color: bool,
}

/// A `Transformer` as contracts see it.
pub struct TransformerView {
    /// Whether escape sequences are written for the known colour codes.
    pub color: bool,
    /// What the last call of `transform` wrote.
    pub output: Seq<char>,
}

impl View for Transformer {
    type V = TransformerView;

    closed spec fn view(&self) -> TransformerView {
        TransformerView { color: !self.disable_color, output: self.buf@ }
    }
}

impl Default for Transformer {
    /// A transformer that writes colours, with an empty buffer.
    fn default() -> (t: Self)
        ensures
            t@ == (TransformerView { color: true, output: Seq::empty() }),
    {
        Transformer::new(false)
    }
}

impl Transformer {
    /// A transformer with an empty buffer, which writes colours unless
    /// `disable_color` is set.
    pub fn new(disable_color: bool) -> (t: Self)
        ensures
            t@ == (TransformerView { color: !disable_color, output: Seq::empty() }),
    {
        Self { buf: String::new(), disable_color }
    }

    /// Rewrites `v`: text before the first marker is written as it stands;
    /// behind each marker, a known colour code becomes its escape sequence,
    /// or nothing where colours are off, and any other character is written
    /// together with the marker; a marker with nothing behind it, or with
    /// another marker behind it, is dropped. The buffer is emptied first,
    /// so nothing of an earlier call is left in what is returned, and what
    /// is returned is borrowed from the buffer.
    pub fn transform(&mut self, v: &str) -> (out: &str)
        ensures
            out@ == render(v@, old(self)@.color),
            final(self)@ == (TransformerView { color: old(self)@.color, output: out@ }),
    {
        self.buf.clear();
        let mut pending = false;
        let ghost color = !self.disable_color;
        proof {
            assert(v@.skip(0) =~= v@);
            assert(self.buf@ + render(v@, color) =~= render(v@, color));
        }
        for c in it: v.chars()
            invariant
                it.seq() == v@,
                color == !self.disable_color,
                self.disable_color == old(self).disable_color,
                self.buf@ + render_rest(v@.skip(it.index()), color, pending) == render(v@, color),
        {
            let ghost rest = v@.skip(it.index());
            proof {
                assert(rest.len() > 0);
                assert(rest[0] == c);
                assert(rest.skip(1) =~= v@.skip(it.index() + 1));
            }
            if pending {
                if c != MC_ESCAPE {
                    proof {
                        lemma_segments_code(rest, color);
                    }
                    match mc_to_ansi(c) {
                        Some(code) => {
                            if !self.disable_color {
                                self.buf.push(ANSI_ESCAPE);
                                self.buf.append(code);
                            }
                        },
                        None => {
                            self.buf.push(MC_ESCAPE);
                            self.buf.push(c);
                        },
                    }
                    pending = false;
                } else {
                    proof {
                        lemma_segments_marker(rest, color);
                    }
                }
            } else if c == MC_ESCAPE {
                proof {
                    lemma_render_marker(rest, color);
                }
                pending = true;
            } else {
                proof {
                    lemma_render_plain(rest, color);
                }
                self.buf.push(c);
            }
        }
        self.buf.as_str()
    }
}

/// Whether `s` holds no marker.
pub open spec fn marker_free(s: Seq<char>) -> bool {
    forall|i: int| 0 <= i < s.len() ==> s[i] != MC_ESCAPE
}

/// Text without a marker is left as it is, whether colours are on or off.
pub proof fn lemma_render_marker_free(s: Seq<char>, color: bool)
    requires
        marker_free(s),
    ensures
        render(s, color) == s,
{
    lemma_first_index_is(s, MC_ESCAPE, s.len() as int);
}

/// One marker with its code character, between two texts without markers:
/// both texts are kept and the pair between them becomes what
/// `render_code` says.
pub proof fn lemma_render_one_code(
    before: Seq<char>,
    clr: char,
    after: Seq<char>,
    color: bool,
)
    requires
        marker_free(before),
        marker_free(after),
        clr != MC_ESCAPE,
    ensures
        render(before + seq![MC_ESCAPE, clr] + after, color) == before + render_code(clr, color)
            + after,
{
    let input = before + seq![MC_ESCAPE, clr] + after;
    let n = before.len() as int;
    lemma_first_index_is(input, MC_ESCAPE, n);
    let rest = input.skip(n + 1);
    assert(rest =~= seq![clr] + after);
    lemma_first_index_is(rest, MC_ESCAPE, rest.len() as int);
    assert(rest.skip(1) =~= after);
    assert(input.take(n) =~= before);
    assert(render(input, color) =~= before + render_code(clr, color) + after);
}

/// With colours on, a known code between two texts without markers becomes
/// the escape character and the code's sequence, and both texts are kept.
pub proof fn lemma_render_known_code_colored(before: Seq<char>, clr: char, after: Seq<char>)
    requires
        marker_free(before),
        marker_free(after),
        ansi_code(clr) is Some,
    ensures
        render(before + seq![MC_ESCAPE, clr] + after, true) == before + seq![ANSI_ESCAPE]
            + ansi_code(clr).unwrap() + after,
{
    lemma_render_one_code(before, clr, after, true);
    assert(before + (seq![ANSI_ESCAPE] + ansi_code(clr).unwrap()) + after =~= before
        + seq![ANSI_ESCAPE] + ansi_code(clr).unwrap() + after);
}

/// With colours off, a known code at the head of a text without markers is
/// stripped together with its marker: what is left is the text, so the
/// result ends with it, holds no marker, and holds an escape character only
/// where the text did.
pub proof fn lemma_render_known_code_plain(clr: char, after: Seq<char>)
    requires
        marker_free(after),
        ansi_code(clr) is Some,
    ensures
        render(seq![MC_ESCAPE, clr] + after, false) == after,
        marker_free(render(seq![MC_ESCAPE, clr] + after, false)),
        !after.contains(ANSI_ESCAPE) ==> !render(seq![MC_ESCAPE, clr] + after, false).contains(
            ANSI_ESCAPE,
        ),
{
    let before = Seq::<char>::empty();
    lemma_render_one_code(before, clr, after, false);
    assert(before + seq![MC_ESCAPE, clr] + after =~= seq![MC_ESCAPE, clr] + after);
    assert(before + render_code(clr, false) + after =~= after);
}

/// A character that is no known code, behind a marker and before a text
/// without markers, is kept together with its marker, whether colours are on
/// or off.
pub proof fn lemma_render_unknown_code(clr: char, after: Seq<char>, color: bool)
    requires
        marker_free(after),
        ansi_code(clr) is None,
        clr != MC_ESCAPE,
    ensures
        render(seq![MC_ESCAPE, clr] + after, color) == seq![MC_ESCAPE, clr] + after,
{
    let before = Seq::<char>::empty();
    lemma_render_one_code(before, clr, after, color);
    assert(before + seq![MC_ESCAPE, clr] + after =~= seq![MC_ESCAPE, clr] + after);
    assert(before + render_code(clr, color) + after =~= seq![MC_ESCAPE, clr] + after);
}

/// A marker at the very end changes nothing of what is still to be written.
proof fn lemma_rest_trailing_marker(s: Seq<char>, color: bool, pending: bool)
    ensures
        render_rest(s + seq![MC_ESCAPE], color, pending) == render_rest(s, color, pending),
    decreases s.len(),
{
    let t = s + seq![MC_ESCAPE];
    if s.len() == 0 {
        assert(t.skip(1) =~= s);
        assert(s =~= Seq::<char>::empty());
        if pending {
            lemma_segments_marker(t, color);
        } else {
            lemma_render_marker(t, color);
        }
    } else {
        assert(t.skip(1) =~= s.skip(1) + seq![MC_ESCAPE]);
        assert(t[0] == s[0]);
        if s[0] == MC_ESCAPE {
            lemma_rest_trailing_marker(s.skip(1), color, true);
            if pending {
                lemma_segments_marker(t, color);
                lemma_segments_marker(s, color);
            } else {
                lemma_render_marker(t, color);
                lemma_render_marker(s, color);
            }
        } else {
            lemma_rest_trailing_marker(s.skip(1), color, false);
            if pending {
                lemma_segments_code(t, color);
                lemma_segments_code(s, color);
            } else {
                lemma_render_plain(t, color);
                lemma_render_plain(s, color);
            }
        }
    }
}

/// A marker at the very end of the input, with no code character behind
/// it, is dropped.
pub proof fn lemma_render_trailing_marker(s: Seq<char>, color: bool)
    ensures
        render(s + seq![MC_ESCAPE], color) == render(s, color),
{
    lemma_rest_trailing_marker(s, color, false);
}

/// Whether `s` holds no escape character.
pub open spec fn escape_free(s: Seq<char>) -> bool {
    forall|i: int| 0 <= i < s.len() ==> s[i] != ANSI_ESCAPE
}

/// Whether the character at `i` in `s` has a known colour code, a marker
/// or nothing behind it.
pub open spec fn known_behind(s: Seq<char>, i: int) -> bool {
    i + 1 < s.len() ==> s[i + 1] == MC_ESCAPE || ansi_code(s[i + 1]) is Some
}

/// Whether every marker in `s` has a known colour code, another marker or
/// nothing behind it.
pub open spec fn codes_known(s: Seq<char>) -> bool {
    forall|i: int| 0 <= i < s.len() && s[i] == MC_ESCAPE ==> #[trigger] known_behind(s, i)
}

/// The escape sequence of a known colour code holds no marker.
proof fn lemma_code_marker_free(clr: char)
    ensures
        ansi_code(clr) matches Some(code) ==> marker_free(code),
{
    reveal_strlit("[38;5;160m");
    reveal_strlit("[38;5;203m");
    reveal_strlit("[38;5;208m");
    reveal_strlit("[38;5;220m");
    reveal_strlit("[38;5;34m");
    reveal_strlit("[38;5;82m");
    reveal_strlit("[38;5;51m");
    reveal_strlit("[38;5;38m");
    reveal_strlit("[38;5;26m");
    reveal_strlit("[38;5;33m");
    reveal_strlit("[38;5;200m");
    reveal_strlit("[38;5;171m");
    reveal_strlit("[0m");
    reveal_strlit("[38;5;248m");
    reveal_strlit("[38;5;242m");
    reveal_strlit("[38;5;235m");
}

/// Where every code is known, nothing that is still to be written holds a
/// marker.
proof fn lemma_rest_marker_free(s: Seq<char>, color: bool, pending: bool)
    requires
        codes_known(s),
        pending && s.len() > 0 ==> s[0] == MC_ESCAPE || ansi_code(s[0]) is Some,
    ensures
        marker_free(render_rest(s, color, pending)),
    decreases s.len(),
{
    if s.len() == 0 {
    } else {
        let t = s.skip(1);
        assert forall|i: int| 0 <= i < t.len() && t[i] == MC_ESCAPE implies #[trigger] known_behind(
            t,
            i,
        ) by {
            assert(s[i + 1] == t[i]);
            assert(known_behind(s, i + 1));
            if i + 1 < t.len() {
                assert(s[i + 2] == t[i + 1]);
            }
        }
        if s[0] == MC_ESCAPE {
            assert(known_behind(s, 0));
            if t.len() > 0 {
                assert(t[0] == s[1]);
            }
            lemma_rest_marker_free(t, color, true);
            if pending {
                lemma_segments_marker(s, color);
            } else {
                lemma_render_marker(s, color);
            }
        } else {
            lemma_rest_marker_free(t, color, false);
            if pending {
                lemma_segments_code(s, color);
                lemma_code_marker_free(s[0]);
            } else {
                lemma_render_plain(s, color);
            }
        }
    }
}

/// Where every marker has a known colour code, another marker or nothing
/// behind it, no marker is left in what is written, whether colours are on
/// or off.
pub proof fn lemma_render_known_codes_marker_free(s: Seq<char>, color: bool)
    requires
        codes_known(s),
    ensures
        marker_free(render(s, color)),
{
    lemma_rest_marker_free(s, color, false);
}

/// With colours off, nothing that is still to be written holds an escape
/// character unless the input does.
proof fn lemma_rest_escape_free(s: Seq<char>, pending: bool)
    requires
        escape_free(s),
    ensures
        escape_free(render_rest(s, false, pending)),
    decreases s.len(),
{
    if s.len() == 0 {
    } else {
        let t = s.skip(1);
        assert forall|i: int| 0 <= i < t.len() implies t[i] != ANSI_ESCAPE by {
            assert(t[i] == s[i + 1]);
        }
        if s[0] == MC_ESCAPE {
            lemma_rest_escape_free(t, true);
            if pending {
                lemma_segments_marker(s, false);
            } else {
                lemma_render_marker(s, false);
            }
        } else {
            lemma_rest_escape_free(t, false);
            if pending {
                lemma_segments_code(s, false);
            } else {
                lemma_render_plain(s, false);
            }
        }
    }
}

/// With colours off, no escape character is written that the input does
/// not hold.
pub proof fn lemma_render_plain_adds_no_escape(s: Seq<char>)
    requires
        escape_free(s),
    ensures
        escape_free(render(s, false)),
{
    lemma_rest_escape_free(s, false);
}

} // verus!
