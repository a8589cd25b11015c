//! State of the in-game debug console: visibility, the input line, a bounded
//! command history with up/down navigation, a bounded output log, and the
//! reading of a submitted command line.
//!
//! The type parameter `T` is the type of the timestamps attached to output
//! messages. The commands themselves, which act on the game world, are kept by
//! the caller; this module records what was typed and what came back.

use vstd::prelude::*;
use std::collections::VecDeque;

verus! {

/// Maximum number of console history entries.
pub const MAX_HISTORY: usize = 100;

/// Maximum number of output lines kept.
pub const MAX_OUTPUT_LINES: usize = 50;

/// Severity of a console message.
#[derive(Debug, Clone, Copy, PartialEq, Eq, Structural)]
pub enum MessageLevel {
    Info,
    Success,
    Warning,
    Error,
}

/// One line of console output.
#[derive(Debug, Clone)]
pub struct ConsoleMessage<T> {
    pub text: String,
    pub level: MessageLevel,
    pub timestamp: T,
}

/// A submitted command line, split into the command's name and its arguments.
#[derive(Debug, Clone)]
pub struct CommandLine {
    pub name: String,
    pub args: Vec<String>,
}

/// Console state.
pub struct DebugConsole<T> {
    /// Is the console visible?
    pub visible: bool,
    /// Current input text
    pub input: String,
    /// Command history, oldest first
    pub history: VecDeque<String>,
    /// Current history index (for up/down navigation)
    pub history_index: Option<usize>,
    /// Console output, oldest first
    pub output: VecDeque<ConsoleMessage<T>>,
}

/// The last `n` elements of `s` (all of them when there are fewer).
pub open spec fn keep_last<A>(s: Seq<A>, n: nat) -> Seq<A> {
    if s.len() > n {
        s.skip(s.len() - n)
    } else {
        s
    }
}

/// The history index after pressing "up" with `len` entries in the history.
pub open spec fn index_after_up(idx: Option<usize>, len: nat) -> Option<usize> {
    if len == 0 {
        idx
    } else {
        match idx {
            Some(i) => Some(if i == 0 { 0usize } else { (i - 1) as usize }),
            None => Some((len - 1) as usize),
        }
    }
}

/// The history index after pressing "down" with `len` entries in the history.
pub open spec fn index_after_down(idx: Option<usize>, len: nat) -> Option<usize> {
    match idx {
        Some(i) => if i + 1 < len {
            Some((i + 1) as usize)
        } else {
            None
        },
        None => None,
    }
}

/// Whether `c` has the Unicode `White_Space` property, which is what
/// `char::is_whitespace` tests and what `str::trim` and
/// `str::split_whitespace` take as whitespace.
pub open spec fn is_white(c: char) -> bool {
    let u = c as u32;
    ||| 0x9 <= u <= 0xd
    ||| u == 0x20
    ||| u == 0x85
    ||| u == 0xa0
    ||| u == 0x1680
    ||| 0x2000 <= u <= 0x200a
    ||| u == 0x2028
    ||| u == 0x2029
    ||| u == 0x202f
    ||| u == 0x205f
    ||| u == 0x3000
}

/// `s` without its leading whitespace.
pub open spec fn trim_start(s: Seq<char>) -> Seq<char>
    decreases s.len(),
{
    if s.len() > 0 && is_white(s[0]) {
        trim_start(s.drop_first())
    } else {
        s
    }
}

/// `s` without its trailing whitespace.
pub open spec fn trim_end(s: Seq<char>) -> Seq<char>
    decreases s.len(),
{
    if s.len() > 0 && is_white(s.last()) {
        trim_end(s.drop_last())
    } else {
        s
    }
}

/// `s` without its leading and trailing whitespace.
pub open spec fn trimmed(s: Seq<char>) -> Seq<char> {
    trim_end(trim_start(s))
}

/// The number of characters before the first whitespace of `s`.
pub open spec fn word_len(s: Seq<char>) -> nat
    decreases s.len(),
{
    if s.len() == 0 || is_white(s[0]) {
        0
    } else {
        1 + word_len(s.drop_first())
    }
}

/// A word is never longer than the text it starts.
pub proof fn lemma_word_len_bounded(s: Seq<char>)
    ensures
        word_len(s) <= s.len(),
    decreases s.len(),
{
    if s.len() > 0 && !is_white(s[0]) {
        lemma_word_len_bounded(s.drop_first());
    }
}

/// The words of `s`: its maximal runs of characters other than whitespace,
/// in order.
pub open spec fn whitespace_words(s: Seq<char>) -> Seq<Seq<char>>
    decreases s.len(),
{
    if s.len() == 0 {
        Seq::empty()
    } else if is_white(s[0]) {
        whitespace_words(s.drop_first())
    } else {
        let k = word_len(s);
        proof {
            lemma_word_len_bounded(s);
        }
        seq![s.take(k as int)] + whitespace_words(s.skip(k as int))
    }
}

/// Every character of `s` is whitespace.
pub open spec fn all_white(s: Seq<char>) -> bool {
    forall|i: int| 0 <= i < s.len() ==> is_white(#[trigger] s[i])
}

proof fn lemma_trim_start_empty(s: Seq<char>)
    ensures
        trim_start(s).len() == 0 <==> all_white(s),
        trim_start(s).len() > 0 ==> !is_white(trim_start(s)[0]),
    decreases s.len(),
{
    if s.len() > 0 && is_white(s[0]) {
        lemma_trim_start_empty(s.drop_first());
        if !all_white(s) {
            let i = choose|i: int| 0 <= i < s.len() && !is_white(#[trigger] s[i]);
            assert(s.drop_first()[i - 1] == s[i]);
        }
        if all_white(s) {
            assert forall|i: int| 0 <= i < s.drop_first().len() implies is_white(
                #[trigger] s.drop_first()[i],
            ) by {
                assert(s.drop_first()[i] == s[i + 1]);
            }
        }
    }
}

proof fn lemma_trim_end_empty(s: Seq<char>)
    ensures
        trim_end(s).len() == 0 <==> all_white(s),
    decreases s.len(),
{
    if s.len() > 0 && is_white(s.last()) {
        lemma_trim_end_empty(s.drop_last());
        if !all_white(s) {
            let i = choose|i: int| 0 <= i < s.len() && !is_white(#[trigger] s[i]);
            assert(s.drop_last()[i] == s[i]);
        }
        if all_white(s) {
            assert forall|i: int| 0 <= i < s.drop_last().len() implies is_white(
                #[trigger] s.drop_last()[i],
            ) by {
                assert(s.drop_last()[i] == s[i]);
            }
        }
    } else if s.len() > 0 {
        assert(!is_white(s[s.len() - 1]));
    }
}

proof fn lemma_no_words_iff_white(s: Seq<char>)
    ensures
        whitespace_words(s).len() == 0 <==> all_white(s),
    decreases s.len(),
{
    if s.len() > 0 {
        if is_white(s[0]) {
            lemma_no_words_iff_white(s.drop_first());
            if !all_white(s) {
                let i = choose|i: int| 0 <= i < s.len() && !is_white(#[trigger] s[i]);
                assert(s.drop_first()[i - 1] == s[i]);
            }
            if all_white(s) {
                assert forall|i: int| 0 <= i < s.drop_first().len() implies is_white(
                    #[trigger] s.drop_first()[i],
                ) by {
                    assert(s.drop_first()[i] == s[i + 1]);
                }
            }
        } else {
            assert(!is_white(s[0]));
        }
    }
}

/// A command line is blank (nothing is left once trimmed) exactly when it
/// holds no word: a line is recorded in the history exactly when it yields a
/// command.
pub proof fn lemma_blank_iff_no_words(s: Seq<char>)
    ensures
        trimmed(s).len() == 0 <==> whitespace_words(s).len() == 0,
{
    lemma_trim_start_empty(s);
    lemma_trim_end_empty(trim_start(s));
    lemma_no_words_iff_white(s);
    if trim_start(s).len() > 0 {
        assert(!is_white(trim_start(s)[0]));
        assert(!all_white(trim_start(s)));
    }
}

/// Splits `s` at whitespace with `str::split_whitespace`; each word is copied
/// into a `String`. The contract restates std's documentation: the words are
/// the maximal runs of non-whitespace characters, in order.
#[verifier::external_body]
fn split_words(s: &str) -> (words: Vec<String>)
    ensures
        words@.map_values(|w: String| w@) == whitespace_words(s@),
{
    s.split_whitespace().map(|w| w.to_string()).collect()
}

/// Removes leading and trailing whitespace with `str::trim`. The contract
/// restates std's documentation.
#[verifier::external_body]
fn trim(s: &str) -> (t: &str)
    ensures
        t@ == trimmed(s@),
{
    s.trim()
}

/// The text logged when a command line is submitted.
pub open spec fn echo_text(command: Seq<char>) -> Seq<char> {
    "> "@ + command
}

/// The text logged for a command name that no command answers to.
pub open spec fn unknown_command_text(name: Seq<char>) -> Seq<char> {
    "Unknown command: '"@ + name + "'. Type 'help' for available commands."@
}

impl<T: Copy> DebugConsole<T> {
    /// A hidden console with empty input, history and output.
    pub fn new() -> (c: Self)
        ensures
            !c.visible,
            c.input@ == Seq::<char>::empty(),
            c.history@ == Seq::<String>::empty(),
            c.history_index is None,
            c.output@ == Seq::<ConsoleMessage<T>>::empty(),
    {
        DebugConsole {
            visible: false,
            input: String::new(),
            history: VecDeque::new(),
            history_index: None,
            output: VecDeque::new(),
        }
    }

    /// Shows or hides the console. On showing, the input line is cleared and
    /// history navigation starts over.
    pub fn toggle(&mut self)
        ensures
            final(self).visible == !old(self).visible,
            final(self).visible ==> final(self).input@ == Seq::<char>::empty()
                && final(self).history_index is None,
            !final(self).visible ==> final(self).input == old(self).input
                && final(self).history_index == old(self).history_index,
            final(self).history == old(self).history,
            final(self).output == old(self).output,
    {
        self.visible = !self.visible;
        if self.visible {
            self.input = String::new();
            self.history_index = None;
        }
    }

    /// Appends a message to the output; only the last `MAX_OUTPUT_LINES` are kept.
    pub fn log(&mut self, text: String, level: MessageLevel, time: T)
        ensures
            final(self).output@ == keep_last(
                old(self).output@.push(ConsoleMessage { text, level, timestamp: time }),
                MAX_OUTPUT_LINES as nat,
            ),
            final(self).visible == old(self).visible,
            final(self).input == old(self).input,
            final(self).history == old(self).history,
            final(self).history_index == old(self).history_index,
    {
        let message = ConsoleMessage { text, level, timestamp: time };
        self.output.push_back(message);
        let ghost pushed = self.output@;
        let ghost mut dropped: int = 0;
        while self.output.len() > MAX_OUTPUT_LINES
            invariant
                0 <= dropped <= pushed.len(),
                self.output@ == pushed.skip(dropped),
                self.output@.len() >= MAX_OUTPUT_LINES || dropped == 0,
                self.visible == old(self).visible,
                self.input == old(self).input,
                self.history == old(self).history,
                self.history_index == old(self).history_index,
            decreases self.output@.len(),
        {
            self.output.pop_front();
            proof {
                dropped = dropped + 1;
            }
        }
        assert(self.output@ =~= keep_last(pushed, MAX_OUTPUT_LINES as nat));
    }

    /// Appends a command to the history; only the last `MAX_HISTORY` are kept.
    pub fn push_history(&mut self, command: String)
        ensures
            final(self).history@ == keep_last(old(self).history@.push(command), MAX_HISTORY as nat),
            final(self).visible == old(self).visible,
            final(self).input == old(self).input,
            final(self).history_index == old(self).history_index,
            final(self).output == old(self).output,
    {
        self.history.push_back(command);
        let ghost pushed = self.history@;
        let ghost mut dropped: int = 0;
        while self.history.len() > MAX_HISTORY
            invariant
                0 <= dropped <= pushed.len(),
                self.history@ == pushed.skip(dropped),
                self.history@.len() >= MAX_HISTORY || dropped == 0,
                self.visible == old(self).visible,
                self.input == old(self).input,
                self.output == old(self).output,
                self.history_index == old(self).history_index,
            decreases self.history@.len(),
        {
            self.history.pop_front();
            proof {
                dropped = dropped + 1;
            }
        }
        assert(self.history@ =~= keep_last(pushed, MAX_HISTORY as nat));
    }

    /// "Up" in the history: with a non-empty history, moves to the previous
    /// entry (from no entry, to the newest) and copies it into the input line.
    pub fn history_up(&mut self)
        ensures
            final(self).history_index == index_after_up(
                old(self).history_index,
                old(self).history@.len(),
            ),
            ({
                let idx = final(self).history_index;
                if old(self).history@.len() > 0 && idx.unwrap() < old(self).history@.len() {
                    final(self).input == old(self).history@[idx.unwrap() as int]
                } else {
                    final(self).input == old(self).input
                }
            }),
            final(self).visible == old(self).visible,
            final(self).history == old(self).history,
            final(self).output == old(self).output,
    {
        let len = self.history.len();
        if len > 0 {
            let idx = match self.history_index {
                Some(i) => if i == 0 {
                    0
                } else {
                    i - 1
                },
                None => len - 1,
            };
            self.history_index = Some(idx);
            if idx < len {
                self.input = self.history[idx].clone();
            }
        }
    }

    /// "Down" in the history: moves to the next entry and copies it into the
    /// input line; past the newest entry, leaves the history and clears the
    /// input line. Without a current entry, nothing happens.
    pub fn history_down(&mut self)
        requires
            old(self).history_index is Some ==> old(self).history@.len() > 0,
        ensures
            final(self).history_index == index_after_down(
                old(self).history_index,
                old(self).history@.len(),
            ),
            ({
                match final(self).history_index {
                    Some(j) => final(self).input == old(self).history@[j as int],
                    None => if old(self).history_index is Some {
                        final(self).input@ == Seq::<char>::empty()
                    } else {
                        final(self).input == old(self).input
                    },
                }
            }),
            final(self).visible == old(self).visible,
            final(self).history == old(self).history,
            final(self).output == old(self).output,
    {
        if let Some(index) = self.history_index {
            if index < self.history.len() - 1 {
                self.history_index = Some(index + 1);
                self.input = self.history[index + 1].clone();
            } else {
                self.history_index = None;
                self.input = String::new();
            }
        }
    }

    /// Takes a submitted command line: echoes it to the output, records it in
    /// the history unless it is blank, and splits it into a command name and
    /// arguments. A line without words gives no command.
    pub fn submit(&mut self, command: String, time: T) -> (r: Option<CommandLine>)
        ensures
            final(self).output@ == keep_last(
                old(self).output@.push(
                    ConsoleMessage {
                        text: final(self).output@.last().text,
                        level: MessageLevel::Info,
                        timestamp: time,
                    },
                ),
                MAX_OUTPUT_LINES as nat,
            ),
            final(self).output@.last().text@ == echo_text(command@),
            trimmed(command@).len() == 0 ==> final(self).history == old(self).history,
            trimmed(command@).len() != 0 ==> final(self).history@ == keep_last(
                old(self).history@.push(command),
                MAX_HISTORY as nat,
            ),
            final(self).visible == old(self).visible,
            final(self).input == old(self).input,
            final(self).history_index == old(self).history_index,
            whitespace_words(command@).len() == 0 <==> r is None,
            trimmed(command@).len() == 0 <==> r is None,
            r matches Some(line) ==> {
                &&& line.name@ == whitespace_words(command@)[0]
                &&& line.args@.map_values(|w: String| w@) == whitespace_words(command@).skip(1)
            },
    {
        let mut echo = String::from_str("> ");
        echo.append(command.as_str());
        self.log(echo, MessageLevel::Info, time);
        proof {
            lemma_blank_iff_no_words(command@);
        }
        let blank = trim(command.as_str()).is_empty();
        let mut words = split_words(command.as_str());
        if !blank {
            self.push_history(command);
        }
        if words.len() == 0 {
            return None;
        }
        let args = words.split_off(1);
        let name = words.pop().unwrap();
        assert(args@.map_values(|w: String| w@) =~= whitespace_words(command@).skip(1));
        Some(CommandLine { name, args })
    }

    /// Empties the output log.
    pub fn clear_output(&mut self)
        ensures
            final(self).output@.len() == 0,
            final(self).visible == old(self).visible,
            final(self).input == old(self).input,
            final(self).history == old(self).history,
            final(self).history_index == old(self).history_index,
    {
        self.output.clear();
    }

    /// Logs what a command answered: its output as a success, its error as an
    /// error.
    pub fn report(&mut self, result: Result<String, String>, time: T)
        ensures
            final(self).output@ == keep_last(
                old(self).output@.push(
                    match result {
                        Ok(text) => ConsoleMessage {
                            text,
                            level: MessageLevel::Success,
                            timestamp: time,
                        },
                        Err(text) => ConsoleMessage {
                            text,
                            level: MessageLevel::Error,
                            timestamp: time,
                        },
                    },
                ),
                MAX_OUTPUT_LINES as nat,
            ),
            final(self).visible == old(self).visible,
            final(self).input == old(self).input,
            final(self).history == old(self).history,
            final(self).history_index == old(self).history_index,
    {
        match result {
            Ok(text) => self.log(text, MessageLevel::Success, time),
            Err(text) => self.log(text, MessageLevel::Error, time),
        }
    }

    /// Logs, as an error, that no command answers to `name`.
    pub fn report_unknown(&mut self, name: &str, time: T)
        ensures
            final(self).output@ == keep_last(
                old(self).output@.push(
                    ConsoleMessage {
                        text: final(self).output@.last().text,
                        level: MessageLevel::Error,
                        timestamp: time,
                    },
                ),
                MAX_OUTPUT_LINES as nat,
            ),
            final(self).output@.last().text@ == unknown_command_text(name@),
            final(self).visible == old(self).visible,
            final(self).input == old(self).input,
            final(self).history == old(self).history,
            final(self).history_index == old(self).history_index,
    {
        let mut text = String::from_str("Unknown command: '");
        text.append(name);
        text.append("'. Type 'help' for available commands.");
        self.log(text, MessageLevel::Error, time);
    }
}

/// The history and output never hold more than their bounds, and keep the
/// newest entries: whatever came before, what is kept ends with what was
/// added last.
pub proof fn lemma_keep_last_bounded<A>(s: Seq<A>, x: A, n: nat)
    requires
        n > 0,
    ensures
        keep_last(s.push(x), n).len() <= n,
        keep_last(s.push(x), n).last() == x,
        s.len() < n ==> keep_last(s.push(x), n) == s.push(x),
{
}

/// Going up the history and back down returns to the same entry, unless the
/// first step had nowhere to go.
pub proof fn lemma_up_then_down(i: usize, len: nat)
    requires
        0 < i < len,
    ensures
        index_after_down(index_after_up(Some(i), len), len) == Some(i),
{
}

/// History navigation over a non-empty history: "up" from no entry goes to
/// the newest, from an entry to the one before it, and stays at the oldest;
/// "down" goes to the next entry and past the newest leaves the history;
/// "down" without an entry does nothing, and "up" over an empty history too.
pub proof fn lemma_history_navigation(idx: Option<usize>, len: nat)
    ensures
        len == 0 ==> index_after_up(idx, len) == idx,
        len > 0 && idx is None ==> index_after_up(idx, len) == Some((len - 1) as usize),
        len > 0 && idx is Some && idx.unwrap() > 0 ==> index_after_up(idx, len) == Some(
            (idx.unwrap() - 1) as usize,
        ),
        len > 0 && idx == Some(0usize) ==> index_after_up(idx, len) == Some(0usize),
        idx is None ==> index_after_down(idx, len) is None,
        idx is Some && idx.unwrap() + 1 < len ==> index_after_down(idx, len) == Some(
            (idx.unwrap() + 1) as usize,
        ),
        idx is Some && idx.unwrap() + 1 >= len ==> index_after_down(idx, len) is None,
{
}

/// Keeping the last `n` elements keeps the newest ones in order: the result
/// is a suffix of `s` of length `min(|s|, n)`.
pub proof fn lemma_keep_last_is_suffix<A>(s: Seq<A>, n: nat)
    ensures
        keep_last(s, n).len() == (if s.len() < n {
            s.len()
        } else {
            n
        }),
        keep_last(s, n) == s.skip(s.len() - keep_last(s, n).len()),
{
    if s.len() <= n {
        assert(s.skip(0) =~= s);
    }
}

} // verus!
