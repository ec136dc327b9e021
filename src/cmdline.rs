//! Decisions of the command-line front end: splitting an editor command
//! line into words, choosing the editor, choosing where a new snippet's code
//! comes from, and which commands need the one-time install.

use crate::os::OsKind;
use crate::text::{chars_of, string_of};
use vstd::prelude::*;
use vstd::string::*;

verus! {

/// Whether `c` has the Unicode `White_Space` property.
pub uninterp spec fn white_space(c: char) -> bool;

/// Relies on `char::is_whitespace`, which reports the Unicode `White_Space`
/// property of the character.
#[verifier::external_body]
fn is_white_space(c: char) -> (r: bool)
    ensures
        r == white_space(c),
{
    c.is_whitespace()
}

/// The state of the command-line splitter between two characters.
pub struct SplitState {
    /// Words finished so far.
    pub words: Seq<Seq<char>>,
    /// The word being read.
    pub buf: Seq<char>,
    /// Inside single quotes.
    pub in_single: bool,
    /// Inside double quotes.
    pub in_double: bool,
    /// The previous character was an escaping backslash.
    pub escape: bool,
}

/// The splitter before the first character.
pub open spec fn split_start() -> SplitState {
    SplitState {
        words: Seq::<Seq<char>>::empty(),
        buf: Seq::<char>::empty(),
        in_single: false,
        in_double: false,
        escape: false,
    }
}

/// One character read by the splitter. An escaped character is taken as it
/// is; outside single quotes a backslash escapes the next character; quote
/// characters open and close quoting; unquoted white space ends a word.
pub open spec fn split_step(st: SplitState, ch: char) -> SplitState {
    if st.escape {
        SplitState { buf: st.buf.push(ch), escape: false, ..st }
    } else if ch == '\\' && !st.in_single {
        SplitState { escape: true, ..st }
    } else if ch == '\'' && !st.in_double {
        SplitState { in_single: !st.in_single, ..st }
    } else if ch == '"' && !st.in_single {
        SplitState { in_double: !st.in_double, ..st }
    } else if white_space(ch) && !st.in_single && !st.in_double {
        if st.buf.len() > 0 {
            SplitState { words: st.words.push(st.buf), buf: Seq::<char>::empty(), ..st }
        } else {
            st
        }
    } else {
        SplitState { buf: st.buf.push(ch), ..st }
    }
}

/// The splitter after reading all of `s`.
pub open spec fn split_run(s: Seq<char>) -> SplitState
    decreases s.len(),
{
    if s.len() == 0 {
        split_start()
    } else {
        split_step(split_run(s.drop_last()), s.last())
    }
}

/// The words of the command line `s`: unclosed quotes keep their text in the
/// last word, and a trailing lone backslash is dropped.
pub open spec fn command_words(s: Seq<char>) -> Seq<Seq<char>> {
    let st = split_run(s);
    if st.buf.len() > 0 {
        st.words.push(st.buf)
    } else {
        st.words
    }
}

/// Splits a command line such as `$VISUAL` or `$EDITOR` into words, without
/// a shell: no expansion, globbing or pipelines.
pub fn parse_cmdline(s: &str) -> (r: Vec<String>)
    ensures
        r@.len() == command_words(s@).len(),
        forall|k: int| 0 <= k < r@.len() ==> #[trigger] r@[k]@ == command_words(s@)[k],
        forall|k: int| 0 <= k < r@.len() ==> #[trigger] r@[k]@.len() > 0,
{
    let chars = chars_of(s);
    let mut words: Vec<String> = Vec::new();
    let mut buf: Vec<char> = Vec::new();
    let mut in_single = false;
    let mut in_double = false;
    let mut escape = false;
    let mut i: usize = 0;
    assert(chars@.take(0) =~= Seq::<char>::empty());
    while i < chars.len()
        invariant
            i <= chars.len(),
            chars@ == s@,
            ({
                let st = split_run(chars@.take(i as int));
                &&& words@.len() == st.words.len()
                &&& forall|k: int| 0 <= k < words@.len() ==> #[trigger] words@[k]@ == st.words[k]
                &&& buf@ == st.buf
                &&& in_single == st.in_single
                &&& in_double == st.in_double
                &&& escape == st.escape
            }),
            forall|k: int| 0 <= k < words@.len() ==> #[trigger] words@[k]@.len() > 0,
        decreases chars.len() - i,
    {
        let ch = chars[i];
        assert(chars@.take(i + 1).drop_last() =~= chars@.take(i as int));
        if escape {
            buf.push(ch);
            escape = false;
        } else if ch == '\\' && !in_single {
            escape = true;
        } else if ch == '\'' && !in_double {
            in_single = !in_single;
        } else if ch == '"' && !in_single {
            in_double = !in_double;
        } else if is_white_space(ch) && !in_single && !in_double {
            if buf.len() > 0 {
                words.push(string_of(&buf));
                buf = Vec::new();
            }
        } else {
            buf.push(ch);
        }
        i = i + 1;
    }
    assert(chars@.take(chars.len() as int) =~= s@);
    if buf.len() > 0 {
        words.push(string_of(&buf));
    }
    words
}

/// Where the code of a new snippet comes from.
#[derive(Clone, Copy, Debug, PartialEq, Eq, Structural)]
pub enum CodeSource {
    /// The text given on the command line.
    Inline,
    /// A file to read.
    File,
    /// Standard input.
    Stdin,
    /// An editor session.
    Editor,
}

/// The first source that was asked for, in the order inline text, file,
/// standard input, editor.
pub open spec fn code_source_for(inline: bool, file: bool, stdin: bool, editor: bool) -> Option<CodeSource> {
    if inline {
        Some(CodeSource::Inline)
    } else if file {
        Some(CodeSource::File)
    } else if stdin {
        Some(CodeSource::Stdin)
    } else if editor {
        Some(CodeSource::Editor)
    } else {
        None
    }
}

/// Chooses where the code of a new snippet comes from; `None` when no source
/// was given.
pub fn pick_code_source(inline: bool, file: bool, stdin: bool, editor: bool) -> (r: Option<CodeSource>)
    ensures
        r == code_source_for(inline, file, stdin, editor),
{
    if inline {
        Some(CodeSource::Inline)
    } else if file {
        Some(CodeSource::File)
    } else if stdin {
        Some(CodeSource::Stdin)
    } else if editor {
        Some(CodeSource::Editor)
    } else {
        None
    }
}

/// How to start an editor on a file.
#[derive(Debug)]
pub enum EditorPlan {
    /// Run this program with these arguments, then the file's path.
    Argv(Vec<String>),
    /// Run `nano` on the file if it is installed, else `vi`.
    NanoOrVi,
}

/// Chooses the editor: the words of `command` (from `$VISUAL` or `$EDITOR`)
/// when given, else the platform's default. `None` when `command` holds no
/// word.
pub fn plan_editor(command: Option<&str>, os: OsKind) -> (r: Option<EditorPlan>)
    ensures
        match command {
            Some(c) => match r {
                Some(EditorPlan::Argv(words)) => command_words(c@).len() > 0 && words@.len()
                    == command_words(c@).len() && forall|k: int|
                    0 <= k < words@.len() ==> #[trigger] words@[k]@ == command_words(c@)[k],
                Some(EditorPlan::NanoOrVi) => false,
                None => command_words(c@).len() == 0,
            },
            None => match os {
                OsKind::Windows => r matches Some(EditorPlan::Argv(words)) && words@.len() == 1
                    && words@[0]@ == "notepad.exe"@,
                OsKind::Macos => r matches Some(EditorPlan::Argv(words)) && words@.len() == 3
                    && words@[0]@ == "open"@ && words@[1]@ == "-W"@ && words@[2]@ == "-t"@,
                _ => r matches Some(EditorPlan::NanoOrVi),
            },
        },
{
    match command {
        Some(c) => {
            let words = parse_cmdline(c);
            if words.len() == 0 {
                None
            } else {
                Some(EditorPlan::Argv(words))
            }
        },
        None => match os {
            OsKind::Windows => Some(EditorPlan::Argv(vec![String::from_str("notepad.exe")])),
            OsKind::Macos => Some(
                EditorPlan::Argv(
                    vec![String::from_str("open"), String::from_str("-W"), String::from_str("-t")],
                ),
            ),
            _ => Some(EditorPlan::NanoOrVi),
        },
    }
}

/// The subcommands of the tool.
#[derive(Clone, Copy, Debug, PartialEq, Eq, Structural)]
pub enum CommandKind {
    Add,
    List,
    Remove,
    Interactive,
    Install,
}

/// Whether `cmd` may only run after the one-time install: every command but
/// `Install` itself.
pub fn requires_install_gate(cmd: CommandKind) -> (r: bool)
    ensures
        r == !(cmd is Install),
{
    match cmd {
        CommandKind::Install => false,
        _ => true,
    }
}

} // verus!
