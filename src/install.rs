//! Text edits made by the install command: a marked block appended once to
//! a shell start-up file, and the block that puts completions on zsh's path.

use crate::text::{chars_of, string_of};
use vstd::prelude::*;
use vstd::string::*;

verus! {

/// `needle` occurs somewhere in `hay`.
pub open spec fn has_infix(hay: Seq<char>, needle: Seq<char>) -> bool {
    exists|i: int| 0 <= i && i + needle.len() <= hay.len() && #[trigger] hay.subrange(i, i + needle.len()) == needle
}

/// The line that opens the block named `marker`.
pub open spec fn begin_line(marker: Seq<char>) -> Seq<char> {
    "# BEGIN "@ + marker + " (snipman)"@
}

/// The line that closes the block named `marker`.
pub open spec fn end_line(marker: Seq<char>) -> Seq<char> {
    "# END "@ + marker + " (snipman)"@
}

/// `contents` with the block appended: after a newline if `contents` does
/// not end in one, and an empty line.
pub open spec fn appended_block(contents: Seq<char>, marker: Seq<char>, body: Seq<char>) -> Seq<char> {
    let head = if contents.len() > 0 && contents.last() == '\n' {
        contents
    } else {
        contents.push('\n')
    };
    head + seq!['\n'] + begin_line(marker) + seq!['\n'] + body + seq!['\n'] + end_line(marker) + seq![
        '\n',
    ]
}

/// Whether `needle` occurs in `hay`.
pub fn contains_text(hay: &Vec<char>, needle: &Vec<char>) -> (r: bool)
    ensures
        r == has_infix(hay@, needle@),
{
    if needle.len() > hay.len() {
        return false;
    }
    let mut i: usize = 0;
    let last = hay.len() - needle.len();
    while i <= last
        invariant
            needle@.len() <= hay@.len(),
            last == hay.len() - needle.len(),
            i <= last + 1,
            forall|j: int| 0 <= j < i ==> #[trigger] hay@.subrange(j, j + needle@.len()) != needle@,
        decreases hay.len() - i,
    {
        let mut k: usize = 0;
        let mut matching = true;
        while matching && k < needle.len()
            invariant
                i <= last,
                last == hay.len() - needle.len(),
                k <= needle@.len(),
                matching ==> hay@.subrange(i as int, i + k) == needle@.take(k as int),
                !matching ==> k < needle@.len() && hay@[i + k] != needle@[k as int],
            decreases needle.len() - k + (if matching { 1int } else { 0int }),
        {
            if hay[i + k] == needle[k] {
                assert(hay@.subrange(i as int, i + k + 1) =~= hay@.subrange(i as int, i + k).push(hay@[i + k]));
                assert(needle@.take(k + 1) =~= needle@.take(k as int).push(needle@[k as int]));
                k = k + 1;
            } else {
                matching = false;
            }
        }
        if matching {
            assert(needle@.take(needle@.len() as int) =~= needle@);
            return true;
        }
        assert(hay@.subrange(i as int, i + needle@.len())[k as int] != needle@[k as int]);
        i = i + 1;
    }
    assert forall|j: int| 0 <= j && j + needle@.len() <= hay@.len() implies #[trigger] hay@.subrange(
        j,
        j + needle@.len(),
    ) != needle@ by {
        assert(j < i);
    }
    false
}

/// The marked block line for `marker`, opening or closing.
fn marker_line(opening: bool, marker: &str) -> (r: String)
    ensures
        r@ == if opening {
            begin_line(marker@)
        } else {
            end_line(marker@)
        },
{
    let mut line = if opening {
        String::from_str("# BEGIN ")
    } else {
        String::from_str("# END ")
    };
    line.append(marker);
    line.append(" (snipman)");
    line
}

/// The new contents of a start-up file that should hold the block named
/// `marker` with `body`; `None` when the block's opening line is already
/// there, so the block is added only once.
pub fn with_block(contents: &str, marker: &str, body: &str) -> (r: Option<String>)
    ensures
        r is None <==> has_infix(contents@, begin_line(marker@)),
        r matches Some(t) ==> t@ == appended_block(contents@, marker@, body@),
{
    let start = marker_line(true, marker);
    let end = marker_line(false, marker);
    let hay = chars_of(contents);
    let needle = chars_of(start.as_str());
    if contains_text(&hay, &needle) {
        return None;
    }
    let mut out = hay;
    if out.len() == 0 || out[out.len() - 1] != '\n' {
        out.push('\n');
    }
    out.push('\n');
    let text = string_of(&out);
    let mut t = text;
    t.append(start.as_str());
    t.append("\n");
    t.append(body);
    t.append("\n");
    t.append(end.as_str());
    t.append("\n");
    proof {
        reveal_strlit("\n");
    }
    assert(t@ =~= appended_block(contents@, marker@, body@));
    Some(t)
}

/// The start-up block that adds the completions directory `dir` to zsh's
/// function path and initialises completion.
pub fn zsh_fpath_block(dir: &str) -> (r: String)
    ensures
        r@ == "fpath+=("@ + dir@ + ")\nautoload -Uz compinit\ncompinit -u"@,
{
    let mut t = String::from_str("fpath+=(");
    t.append(dir);
    t.append(")\nautoload -Uz compinit\ncompinit -u");
    t
}

} // verus!
