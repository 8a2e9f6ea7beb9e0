//! Splitting a command line into the program and its arguments.
//!
//! A command line is cut at white space, and at nothing else: there is no
//! quoting and no escaping. The first word names the program.

use crate::chars::{is_blank, is_space, is_whitespace};
use crate::error::ConfigError;
use vstd::prelude::*;
use vstd::string::StrSliceExecFns;

verus! {

/// The first index at or after `i` that holds no white space, or
/// `s.len()` where only white space follows.
pub open spec fn word_start(s: Seq<char>, i: int) -> int
    decreases s.len() - i,
{
    if 0 <= i < s.len() && is_space(s[i]) {
        word_start(s, i + 1)
    } else {
        i
    }
}

/// The first index at or after `i` that holds white space, or `s.len()`
/// where none follows.
pub open spec fn word_end(s: Seq<char>, i: int) -> int
    decreases s.len() - i,
{
    if 0 <= i < s.len() && !is_space(s[i]) {
        word_end(s, i + 1)
    } else {
        i
    }
}

/// The words of `s` that begin at or after `i`, in order: skip white
/// space, take what follows up to the next white space, and go on.
pub open spec fn words_from(s: Seq<char>, i: int) -> Seq<Seq<char>>
    decreases s.len() - i,
{
    let a = word_start(s, i);
    if 0 <= i && a < s.len() {
        let b = word_end(s, a);
        proof {
            lemma_word_start(s, i);
            lemma_word_end(s, a);
        }
        seq![s.subrange(a, b)] + words_from(s, b)
    } else {
        Seq::empty()
    }
}

/// The words of `s`: its maximal runs of characters that are no white
/// space, from left to right.
pub open spec fn words(s: Seq<char>) -> Seq<Seq<char>> {
    words_from(s, 0)
}

/// A word is not empty and holds no white space.
pub open spec fn is_word(w: Seq<char>) -> bool {
    &&& w.len() > 0
    &&& forall|i: int| 0 <= i < w.len() ==> !is_space(#[trigger] w[i])
}

/// `word_start` stops within the text, on the first character that is no
/// white space.
pub proof fn lemma_word_start(s: Seq<char>, i: int)
    requires
        0 <= i <= s.len(),
    ensures
        i <= word_start(s, i) <= s.len(),
        word_start(s, i) < s.len() ==> !is_space(s[word_start(s, i)]),
        forall|j: int| i <= j < word_start(s, i) ==> is_space(#[trigger] s[j]),
    decreases s.len() - i,
{
    if i < s.len() && is_space(s[i]) {
        lemma_word_start(s, i + 1);
    }
}

/// `word_end` stops within the text, on the first white space.
pub proof fn lemma_word_end(s: Seq<char>, i: int)
    requires
        0 <= i <= s.len(),
    ensures
        i <= word_end(s, i) <= s.len(),
        i < s.len() && !is_space(s[i]) ==> i < word_end(s, i),
        word_end(s, i) < s.len() ==> is_space(s[word_end(s, i)]),
        forall|j: int| i <= j < word_end(s, i) ==> !is_space(#[trigger] s[j]),
    decreases s.len() - i,
{
    if i < s.len() && !is_space(s[i]) {
        lemma_word_end(s, i + 1);
    }
}

/// A run without white space that ends at `k`, on white space or on the
/// end of the text, is where `word_end` stops.
pub proof fn lemma_word_end_at(s: Seq<char>, a: int, k: int)
    requires
        0 <= a <= k <= s.len(),
        forall|j: int| a <= j < k ==> !is_space(#[trigger] s[j]),
        k < s.len() ==> is_space(s[k]),
    ensures
        word_end(s, a) == k,
    decreases k - a,
{
    if a < k {
        lemma_word_end_at(s, a + 1, k);
    }
}

/// Cuts `s` into its words.
pub fn split_words(s: &str) -> (out: Vec<String>)
    ensures
        out.deep_view() == words(s@),
{
    let n = s.unicode_len();
    let mut out: Vec<String> = Vec::new();
    let mut in_word = false;
    let mut start: usize = 0;
    let mut k: usize = 0;
    for c in it: s.chars()
        invariant
            it.seq() == s@,
            n == s@.len(),
            k == it.index(),
            in_word ==> start < k && forall|j: int| start <= j < k ==> !is_space(#[trigger] s@[j]),
            words(s@) == out.deep_view() + words_from(s@, if in_word { start as int } else { k as int }),
    {
        assert(c == s@[k as int]);
        if is_whitespace(c) {
            if in_word {
                let word = s.substring_char(start, k).to_owned();
                proof {
                    lemma_word_end_at(s@, start as int, k as int);
                    assert(out.deep_view().push(word@) + words_from(s@, k as int) == out.deep_view()
                        + (seq![word@] + words_from(s@, k as int)));
                }
                let ghost before = out.deep_view();
                out.push(word);
                assert(out.deep_view() == before.push(word@));
                in_word = false;
            }
        } else if !in_word {
            start = k;
            in_word = true;
        }
        k += 1;
    }
    if in_word {
        let word = s.substring_char(start, k).to_owned();
        proof {
            lemma_word_end_at(s@, start as int, k as int);
            assert(words_from(s@, k as int) == Seq::<Seq<char>>::empty());
        }
        let ghost before = out.deep_view();
        out.push(word);
        assert(out.deep_view() == before.push(word@));
    }
    out
}

/// Every word that the cut yields is a word: it is not empty and holds no
/// white space.
pub proof fn lemma_words_are_words(s: Seq<char>, i: int)
    requires
        0 <= i <= s.len(),
    ensures
        forall|k: int| 0 <= k < words_from(s, i).len() ==> is_word(#[trigger] words_from(s, i)[k]),
    decreases s.len() - i,
{
    let a = word_start(s, i);
    lemma_word_start(s, i);
    if a < s.len() {
        let b = word_end(s, a);
        lemma_word_end(s, a);
        lemma_words_are_words(s, b);
        let head = s.subrange(a, b);
        assert(is_word(head)) by {
            assert forall|j: int| 0 <= j < head.len() implies !is_space(#[trigger] head[j]) by {
                assert(head[j] == s[a + j]);
            }
        }
        assert forall|k: int| 0 <= k < words_from(s, i).len() implies is_word(
            #[trigger] words_from(s, i)[k],
        ) by {
            if k > 0 {
                assert(words_from(s, i)[k] == words_from(s, b)[k - 1]);
            }
        }
    }
}

/// A text has no word exactly when it is blank.
pub proof fn lemma_no_words_iff_blank(s: Seq<char>)
    ensures
        words(s).len() == 0 <==> is_blank(s),
{
    lemma_word_start(s, 0);
    let a = word_start(s, 0);
    if a < s.len() {
        assert(!is_space(s[a]));
    }
}

/// A text that is one word is cut into just that word.
pub proof fn lemma_single_word(s: Seq<char>)
    requires
        is_word(s),
    ensures
        words(s) == seq![s],
{
    let n = s.len() as int;
    lemma_word_end_at(s, 0, n);
    assert(s.subrange(0, n) == s);
    assert(words_from(s, n) == Seq::<Seq<char>>::empty());
}

/// A command line, cut into the program and its arguments.
#[derive(Clone, Debug, PartialEq, Eq)]
pub struct CommandLine {
    /// The program to run.
    pub program: String,
    /// The arguments to hand to it, in order.
    pub args: Vec<String>,
}

impl CommandLine {
    /// The program followed by its arguments.
    pub open spec fn words(self) -> Seq<Seq<char>> {
        seq![self.program@] + self.args.deep_view()
    }

    /// The program and each argument are words.
    pub open spec fn wf(self) -> bool {
        forall|k: int| 0 <= k < self.words().len() ==> is_word(#[trigger] self.words()[k])
    }
}

/// Reads a command line: the first word is the program, the words after
/// it are its arguments. A blank line names no program and is refused.
pub fn must_to_command(str_cmd: &str) -> (r: Result<CommandLine, ConfigError>)
    ensures
        r is Err <==> is_blank(str_cmd@),
        r matches Err(e) ==> e == ConfigError::EmptyCommand,
        r matches Ok(cmd) ==> cmd.words() == words(str_cmd@) && cmd.wf(),
{
    let mut parts = split_words(str_cmd);
    proof {
        lemma_no_words_iff_blank(str_cmd@);
        lemma_words_are_words(str_cmd@, 0);
    }
    if parts.len() == 0 {
        return Err(ConfigError::EmptyCommand);
    }
    let ghost all = parts.deep_view();
    let program = parts.remove(0);
    let cmd = CommandLine { program, args: parts };
    assert(cmd.words() == all);
    Ok(cmd)
}

/// The command that powers the machine off: systemd's.
pub fn poweroff_command() -> (cmd: CommandLine)
    ensures
        cmd.program@ == "/usr/bin/systemctl"@,
        cmd.args.deep_view() == seq!["poweroff"@],
        cmd.wf(),
{
    let program = "/usr/bin/systemctl".to_owned();
    let mut args: Vec<String> = Vec::new();
    args.push("poweroff".to_owned());
    let cmd = CommandLine { program, args };
    proof {
        reveal_strlit("/usr/bin/systemctl");
        reveal_strlit("poweroff");
        assert(cmd.args.deep_view() == seq!["poweroff"@]);
        assert(cmd.words() == seq!["/usr/bin/systemctl"@, "poweroff"@]);
        assert(is_word("/usr/bin/systemctl"@));
        assert(is_word("poweroff"@));
    }
    cmd
}

} // verus!
