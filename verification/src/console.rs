//! The console engine: scrollback buffer, input line, shift state, and the
//! command submission state machine.
//!
//! The console owns an append-only sequence of past lines and a mutable input
//! line. Key events edit the input line or submit it; submission either
//! clears the console (the `clear` builtin), records an empty prompt line, or
//! tokenizes the line into a command request that the embedding program runs
//! as a subprocess. Captured output (or a failure description) comes back
//! through `append_output`, which splits it on newlines and appends each
//! piece to the scrollback. Drawing is a pure function from the console state
//! to a list of text rows; the embedding program turns the rows into GL
//! draw calls.

use vstd::prelude::*;
use vstd::string::StringExecFns;

use crate::keys::Key;
use crate::keys::base_char;
use crate::keys::shifted_char;
use crate::keys::typed_char_of;
use crate::text::chars_eq_str;
use crate::text::chars_to_string;
use crate::text::is_space;
use crate::text::is_space_char;
use crate::text::lemma_tokens_from_nonempty;
use crate::text::split_lines;
use crate::text::split_text;
use crate::text::str_to_chars;
use crate::text::tokenize;
use crate::text::tokens_of;

verus! {

/// Horizontal pixel offset at which every row is drawn.
pub const TEXT_X_OFFSET: u64 = 10;

/// Vertical pixel distance between consecutive rows.
pub const LINE_HEIGHT: u64 = 30;

/// The prompt prefix shown before the in-progress input line.
pub open spec fn prompt_text() -> Seq<char> {
    "KenTerm: (USER:profsucrose)> "@
}

/// The command line that is actually executed for a submitted input line:
/// the `neofetch` alias is substituted by its fixed equivalent command,
/// every other line runs as typed.
pub open spec fn effective_input(input: Seq<char>) -> Seq<char> {
    if input == "neofetch"@ {
        "cat /home/profsucrose/Documents/kenfetch"@
    } else {
        input
    }
}

/// The whitespace-separated tokens of the command line that a submitted
/// input would execute: the first is the executable name, the rest are its
/// arguments.
pub open spec fn command_tokens(input: Seq<char>) -> Seq<Seq<char>> {
    tokens_of(effective_input(input))
}

/// An input line the console can submit: the `clear` builtin, the empty
/// line, or a line with at least one token. A non-empty line of nothing but
/// whitespace has no executable name and cannot be submitted.
pub open spec fn submit_ok(input: Seq<char>) -> bool {
    ||| input == "clear"@
    ||| input.len() == 0
    ||| command_tokens(input).len() > 0
}

/// A command the embedding program is asked to run as one subprocess:
/// the executable name and its positional arguments.
#[derive(Debug, PartialEq, Eq)]
pub struct CommandRequest {
    /// The executable name: the first token of the submitted line.
    pub program: String,
    /// The positional arguments: the remaining tokens, in order.
    pub args: Vec<String>,
}

/// The mathematical state of a console: scrollback lines, input line,
/// shift state, and the stored framebuffer size.
pub struct ConsoleView {
    /// The scrollback lines, oldest first.
    pub lines: Seq<Seq<char>>,
    /// The characters of the not-yet-submitted input line.
    pub input: Seq<char>,
    /// Whether a shift key is currently held.
    pub shift: bool,
    /// Stored framebuffer width in pixels.
    pub width: u32,
    /// Stored framebuffer height in pixels.
    pub height: u32,
}

/// What submitting the input line does to the console, and which command
/// request (if any) it hands to the embedding program: `clear` empties
/// everything; an empty line records a bare prompt line; any other line is
/// recorded as prompt plus input, the input is reset, and its tokens become
/// the request.
pub open spec fn submit_spec(pre: ConsoleView, post: ConsoleView, r: Option<CommandRequest>) -> bool {
    &&& post.shift == pre.shift
    &&& post.width == pre.width
    &&& post.height == pre.height
    &&& if pre.input == "clear"@ {
        &&& post.lines.len() == 0
        &&& post.input.len() == 0
        &&& r is None
    } else if pre.input.len() == 0 {
        &&& post.lines == pre.lines.push(prompt_text())
        &&& post.input == pre.input
        &&& r is None
    } else {
        &&& post.lines == pre.lines.push(prompt_text() + pre.input)
        &&& post.input.len() == 0
        &&& r is Some
        &&& r->Some_0.program@ == command_tokens(pre.input)[0]
        &&& r->Some_0.args.deep_view() == command_tokens(pre.input).drop_first()
    }
}

/// The view of `c` after one framebuffer resize to `width` by `height`.
pub open spec fn resized(v: ConsoleView, width: u32, height: u32) -> ConsoleView {
    ConsoleView { width, height, ..v }
}

/// The view of `c` after a whole sequence of framebuffer resizes, applied in
/// order.
pub open spec fn resized_all(v: ConsoleView, sizes: Seq<(u32, u32)>) -> ConsoleView
    decreases sizes.len(),
{
    if sizes.len() == 0 {
        v
    } else {
        resized_all(resized(v, sizes[0].0, sizes[0].1), sizes.drop_first())
    }
}

/// Resizing any number of times in a row stores exactly the last resize's
/// dimensions and touches nothing else.
pub proof fn lemma_resize_last_wins(v: ConsoleView, sizes: Seq<(u32, u32)>)
    requires
        sizes.len() > 0,
    ensures
        resized_all(v, sizes).width == sizes.last().0,
        resized_all(v, sizes).height == sizes.last().1,
        resized_all(v, sizes).lines == v.lines,
        resized_all(v, sizes).input == v.input,
        resized_all(v, sizes).shift == v.shift,
    decreases sizes.len(),
{
    if sizes.len() == 1 {
        assert(sizes.drop_first().len() == 0);
        assert(resized_all(resized(v, sizes[0].0, sizes[0].1), sizes.drop_first()) == resized(
            v,
            sizes[0].0,
            sizes[0].1,
        ));
        assert(sizes.last() == sizes[0]);
    } else {
        lemma_resize_last_wins(resized(v, sizes[0].0, sizes[0].1), sizes.drop_first());
        assert(sizes.drop_first().last() == sizes.last());
    }
}

/// One text row to draw: a line of text at a screen-space pixel position.
pub struct RenderRow {
    /// The text of the row.
    pub text: String,
    /// Horizontal pixel offset.
    pub x: u64,
    /// Vertical pixel offset, proportional to the row's index.
    pub y: u64,
}

/// The console engine: scrollback, input line, shift state, and the stored
/// screen size that the rendering back end projects with.
pub struct Console {
    past_lines: Vec<String>,
    last_line: Vec<char>,
    shift_pressed: bool,
    screen_width: u32,
    screen_height: u32,
}

impl View for Console {
    type V = ConsoleView;

    closed spec fn view(&self) -> ConsoleView {
        ConsoleView {
            lines: self.past_lines.deep_view(),
            input: self.last_line@,
            shift: self.shift_pressed,
            width: self.screen_width,
            height: self.screen_height,
        }
    }
}

impl Console {
    /// A fresh console: empty scrollback, empty input line, shift up, and
    /// the given initial framebuffer size.
    pub fn new(width: u32, height: u32) -> (c: Console)
        ensures
            c@.lines.len() == 0,
            c@.input.len() == 0,
            !c@.shift,
            c@.width == width,
            c@.height == height,
    {
        Console {
            past_lines: Vec::new(),
            last_line: Vec::new(),
            shift_pressed: false,
            screen_width: width,
            screen_height: height,
        }
    }

    /// Stores a new framebuffer size for the rendering back end; the text
    /// state is untouched.
    pub fn update_screen_size(&mut self, width: u32, height: u32)
        ensures
            final(self)@ == resized(old(self)@, width, height),
    {
        self.screen_width = width;
        self.screen_height = height;
    }

    /// Appends one finished line to the scrollback.
    pub fn add_line(&mut self, line: String)
        ensures
            final(self)@ == (ConsoleView { lines: old(self)@.lines.push(line@), ..old(self)@ }),
    {
        self.past_lines.push(line);
        proof {
            assert(self.past_lines.deep_view() =~= old(self).past_lines.deep_view().push(line@));
        }
    }

    /// Appends one character to the input line.
    pub fn add_to_last_line(&mut self, ch: char)
        ensures
            final(self)@ == (ConsoleView { input: old(self)@.input.push(ch), ..old(self)@ }),
    {
        self.last_line.push(ch);
    }

    /// Backspace: removes the last character of the input line, and does
    /// nothing on an empty input line.
    pub fn remove_last_char(&mut self)
        ensures
            old(self)@.input.len() == 0 ==> final(self)@ == old(self)@,
            old(self)@.input.len() > 0 ==> final(self)@ == (ConsoleView {
                input: old(self)@.input.drop_last(),
                ..old(self)@
            }),
    {
        if self.last_line.len() == 0 {
            return ;
        }
        self.last_line.pop();
        proof {
            assert(self.last_line@ =~= old(self)@.input.drop_last());
        }
    }

    /// A shift key went down.
    pub fn shift(&mut self)
        ensures
            final(self)@ == (ConsoleView { shift: true, ..old(self)@ }),
    {
        self.shift_pressed = true;
    }

    /// A shift key went up.
    pub fn unshift(&mut self)
        ensures
            final(self)@ == (ConsoleView { shift: false, ..old(self)@ }),
    {
        self.shift_pressed = false;
    }

    /// The stored framebuffer size, as last set by construction or resize:
    /// what the rendering back end projects screen coordinates with.
    pub fn screen_size(&self) -> (r: (u32, u32))
        ensures
            r.0 == self@.width,
            r.1 == self@.height,
    {
        (self.screen_width, self.screen_height)
    }

    /// The prompt prefix followed by the current input line: the row shown
    /// below the scrollback, and the line recorded on submission.
    pub fn current_line_formatted(&self) -> (r: String)
        ensures
            r@ == prompt_text() + self@.input,
    {
        let mut line = String::from_str("KenTerm: (USER:profsucrose)> ");
        let rest = chars_to_string(&self.last_line);
        line.append(rest.as_str());
        line
    }

    /// Whether the input line can be submitted: `clear`, the empty line, or
    /// a line with at least one token. The embedding program checks this
    /// before forwarding an enter key press.
    pub fn can_submit(&self) -> (r: bool)
        ensures
            r == submit_ok(self@.input),
    {
        if self.last_line.len() == 0 {
            return true;
        }
        if chars_eq_str(&self.last_line, "clear") {
            return true;
        }
        if chars_eq_str(&self.last_line, "neofetch") {
            proof {
                reveal_strlit("cat /home/profsucrose/Documents/kenfetch");
                let sub = "cat /home/profsucrose/Documents/kenfetch"@;
                assert(exists|j: int| 0 <= j < sub.len() && !is_space(sub[j])) by {
                    assert(0 <= 0 < sub.len() && !is_space(sub[0]));
                }
                lemma_tokens_from_nonempty(sub, 0);
            }
            return true;
        }
        let ghost s = self.last_line@;
        let mut i: usize = 0;
        while i < self.last_line.len()
            invariant
                i <= self.last_line.len(),
                s == self.last_line@,
                s == self@.input,
                s != "neofetch"@,
                forall|j: int| 0 <= j < i ==> is_space(s[j]),
            decreases self.last_line.len() - i,
        {
            if !is_space_char(self.last_line[i]) {
                proof {
                    assert(exists|j: int| 0 <= j < s.len() && !is_space(s[j])) by {
                        assert(0 <= (i as int) < s.len() && !is_space(s[i as int]));
                    }
                    lemma_tokens_from_nonempty(s, 0);
                }
                return true;
            }
            i += 1;
        }
        proof {
            lemma_tokens_from_nonempty(s, 0);
        }
        false
    }

    /// Submits the input line: `clear` empties scrollback and input; an
    /// empty line records a bare prompt line; any other line is recorded as
    /// prompt plus input (the `neofetch` alias is shown as typed), the input
    /// is reset, and the line's tokens are returned as the command request
    /// for the embedding program to run.
    pub fn run_command(&mut self) -> (r: Option<CommandRequest>)
        requires
            submit_ok(old(self)@.input),
        ensures
            submit_spec(old(self)@, final(self)@, r),
    {
        if chars_eq_str(&self.last_line, "clear") {
            self.last_line.clear();
            self.past_lines.clear();
            proof {
                assert(self.past_lines.deep_view() =~= Seq::<Seq<char>>::empty());
            }
            return None;
        }
        if self.last_line.len() == 0 {
            let formatted = self.current_line_formatted();
            proof {
                assert(formatted@ =~= prompt_text());
            }
            self.past_lines.push(formatted);
            proof {
                assert(self.past_lines.deep_view() =~= old(self)@.lines.push(prompt_text()));
            }
            return None;
        }
        let toks: Vec<String>;
        if chars_eq_str(&self.last_line, "neofetch") {
            let sub = str_to_chars("cat /home/profsucrose/Documents/kenfetch");
            toks = tokenize(&sub);
        } else {
            toks = tokenize(&self.last_line);
        }
        proof {
            assert(toks.deep_view() == command_tokens(old(self)@.input));
            assert(toks.deep_view().len() == toks@.len());
        }
        let formatted = self.current_line_formatted();
        self.past_lines.push(formatted);
        self.last_line.clear();
        proof {
            assert(self.past_lines.deep_view() =~= old(self)@.lines.push(
                prompt_text() + old(self)@.input,
            ));
        }
        let program = toks[0].clone();
        let mut args: Vec<String> = Vec::new();
        let mut i: usize = 1;
        while i < toks.len()
            invariant
                1 <= i <= toks.len(),
                args.deep_view() == toks.deep_view().subrange(1, i as int),
                toks.deep_view().len() == toks@.len(),
            decreases toks.len() - i,
        {
            let ghost pre = args.deep_view();
            args.push(toks[i].clone());
            proof {
                assert(args@.len() == pre.len() + 1);
                assert(forall|j: int| 0 <= j < pre.len() ==> args.deep_view()[j] == pre[j]);
                assert(args.deep_view()[pre.len() as int] == toks.deep_view()[i as int]);
                assert(args.deep_view() =~= toks.deep_view().subrange(1, i + 1 as int));
            }
            i += 1;
        }
        proof {
            assert(args.deep_view() =~= command_tokens(old(self)@.input).drop_first());
        }
        Some(CommandRequest { program, args })
    }

    /// Translates one key press: backspace edits, enter submits (returning
    /// the command request to run, if any), a printable key appends its
    /// (possibly shift-remapped) character, and any other key is ignored.
    pub fn handle_key(&mut self, key: Key) -> (r: Option<CommandRequest>)
        requires
            key == Key::Enter ==> submit_ok(old(self)@.input),
        ensures
            key == Key::Backspace ==> r is None && (if old(self)@.input.len() == 0 {
                final(self)@ == old(self)@
            } else {
                final(self)@ == (ConsoleView { input: old(self)@.input.drop_last(), ..old(self)@ })
            }),
            key == Key::Enter ==> submit_spec(old(self)@, final(self)@, r),
            key != Key::Enter && key != Key::Backspace ==> r is None && (match typed_char_of(
                key,
                old(self)@.shift,
            ) {
                Some(c) => final(self)@ == (ConsoleView {
                    input: old(self)@.input.push(c),
                    ..old(self)@
                }),
                None => final(self)@ == old(self)@,
            }),
    {
        if key == Key::Backspace {
            self.remove_last_char();
            return None;
        }
        if key == Key::Enter {
            return self.run_command();
        }
        match base_char(key) {
            Some(c) => {
                let ch = if self.shift_pressed {
                    shifted_char(c)
                } else {
                    c
                };
                self.add_to_last_line(ch);
            },
            None => {},
        }
        None
    }

    /// Appends one captured output text to the scrollback, split on
    /// newlines, each piece as its own line, in order. A subprocess failure
    /// description is appended through the same path.
    pub fn append_output(&mut self, output: &str)
        ensures
            final(self)@ == (ConsoleView {
                lines: old(self)@.lines + split_lines(output@),
                ..old(self)@
            }),
    {
        let chars = str_to_chars(output);
        let segs = split_text(&chars);
        proof {
            assert(old(self)@.lines + split_lines(output@).subrange(0, 0) =~= old(self)@.lines);
        }
        let mut i: usize = 0;
        while i < segs.len()
            invariant
                i <= segs.len(),
                segs.deep_view() == split_lines(output@),
                segs.deep_view().len() == segs@.len(),
                self.past_lines.deep_view() == old(self)@.lines + split_lines(output@).subrange(
                    0,
                    i as int,
                ),
                self.last_line == old(self).last_line,
                self.shift_pressed == old(self).shift_pressed,
                self.screen_width == old(self).screen_width,
                self.screen_height == old(self).screen_height,
            decreases segs.len() - i,
        {
            let line = segs[i].clone();
            let ghost pre = self.past_lines.deep_view();
            self.past_lines.push(line);
            proof {
                assert(self.past_lines@.len() == pre.len() + 1);
                assert(forall|j: int|
                    0 <= j < pre.len() ==> self.past_lines.deep_view()[j] == pre[j]);
                assert(self.past_lines.deep_view()[pre.len() as int] == segs.deep_view()[
                    i as int]);
                assert(segs.deep_view()[i as int] == split_lines(output@)[i as int]);
                assert(self.past_lines.deep_view() =~= pre.push(split_lines(output@)[i as int]));
                assert(pre.push(split_lines(output@)[i as int]) =~= old(self)@.lines + split_lines(
                    output@,
                ).subrange(0, i + 1 as int));
            }
            i += 1;
        }
        proof {
            assert(split_lines(output@).subrange(0, split_lines(output@).len() as int)
                =~= split_lines(output@));
        }
    }

    /// The rows to draw this frame: every scrollback line in order, each at
    /// the fixed horizontal offset and a vertical offset proportional to its
    /// index, followed by exactly one prompt-plus-input row in the next
    /// slot. With an empty scrollback only the prompt row is produced.
    pub fn draw_lines(&self) -> (rows: Vec<RenderRow>)
        requires
            LINE_HEIGHT as int * (self@.lines.len() as int + 1) <= u64::MAX as int,
        ensures
            rows@.len() == self@.lines.len() + 1,
            forall|i: int|
                0 <= i < self@.lines.len() ==> (#[trigger] rows@[i]).text@ == self@.lines[i]
                    && rows@[i].x == TEXT_X_OFFSET && rows@[i].y == LINE_HEIGHT as int * (i + 1),
            rows@.last().text@ == prompt_text() + self@.input,
            rows@.last().x == TEXT_X_OFFSET,
            rows@.last().y == LINE_HEIGHT as int * (self@.lines.len() as int + 1),
    {
        proof {
            assert(self.past_lines.deep_view().len() == self.past_lines@.len());
        }
        let mut rows: Vec<RenderRow> = Vec::new();
        let mut i: usize = 0;
        while i < self.past_lines.len()
            invariant
                i <= self.past_lines.len(),
                self@.lines.len() == self.past_lines@.len(),
                LINE_HEIGHT as int * (self@.lines.len() as int + 1) <= u64::MAX as int,
                rows@.len() == i,
                forall|j: int|
                    0 <= j < i ==> (#[trigger] rows@[j]).text@ == self@.lines[j] && rows@[j].x
                        == TEXT_X_OFFSET && rows@[j].y == LINE_HEIGHT as int * (j + 1),
            decreases self.past_lines.len() - i,
        {
            let y: u64 = LINE_HEIGHT * (i as u64 + 1);
            let text = self.past_lines[i].clone();
            rows.push(RenderRow { text, x: TEXT_X_OFFSET, y });
            i += 1;
        }
        let y: u64 = LINE_HEIGHT * (self.past_lines.len() as u64 + 1);
        let text = self.current_line_formatted();
        rows.push(RenderRow { text, x: TEXT_X_OFFSET, y });
        rows
    }
}

} // verus!
