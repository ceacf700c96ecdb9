//! The command line: a source file and the switches behind it.

use crate::text::str_eq;
use vstd::prelude::*;

verus! {

/// What the command line asks for.
#[derive(Debug, Clone, PartialEq, Eq, Default)]
pub struct Args {
    /// The source file; empty where none is named.
    pub file: String,
    /// Show the parsed arguments.
    pub args: bool,
    /// Show the usage text.
    pub help: bool,
    /// Show the tokens of each line.
    pub tokens: bool,
    /// Show the instructions of each line.
    pub instructions: bool,
    /// Show the program's name and version.
    pub version: bool,
    /// Show the memory map.
    pub memory: bool,
}

/// The mathematical content of [`Args`].
pub struct ArgsView {
    pub file: Seq<char>,
    pub args: bool,
    pub help: bool,
    pub tokens: bool,
    pub instructions: bool,
    pub version: bool,
    pub memory: bool,
}

impl View for Args {
    type V = ArgsView;

    open spec fn view(&self) -> ArgsView {
        ArgsView {
            file: self.file@,
            args: self.args,
            help: self.help,
            tokens: self.tokens,
            instructions: self.instructions,
            version: self.version,
            memory: self.memory,
        }
    }
}

/// Whether a switch stands anywhere on the command line, in its short or
/// in its long form.
pub open spec fn has_switch(words: Seq<Seq<char>>, short: Seq<char>, long: Seq<char>) -> bool {
    words.contains(short) || words.contains(long)
}

/// The source file: the word behind the program's name.
pub open spec fn file_of(words: Seq<Seq<char>>) -> Seq<char> {
    if words.len() > 1 {
        words[1]
    } else {
        seq![]
    }
}

/// What a command line asks for. Its first word is the program's name and
/// its second the source file; without a file it asks for the usage text.
pub open spec fn parsed(words: Seq<Seq<char>>) -> ArgsView {
    ArgsView {
        file: file_of(words),
        args: has_switch(words, "-a"@, "--args"@),
        help: has_switch(words, "-h"@, "--help"@) || file_of(words).len() == 0,
        tokens: has_switch(words, "-t"@, "--tokens"@),
        instructions: has_switch(words, "-i"@, "--instructions"@),
        version: has_switch(words, "-v"@, "--version"@),
        memory: has_switch(words, "-m"@, "--memory"@),
    }
}

/// What follows the program's name in the usage text.
pub const USAGE_TAIL: &'static str =
    " <file> [options]\n\
Options:\n  \
-h, --help     Print this help message\n  \
-a, --args     Print the arguments\n  \
-t, --tokens   Print the tokens\n  \
-i, --instructions   Print the instructions\n  \
-m, --memory   Print the memory\n  \
-v, --version  Print program version\n";

/// The usage text for a program of the given name.
pub open spec fn usage_of(package_name: Seq<char>) -> Seq<char> {
    "Usage: "@ + package_name + USAGE_TAIL@
}

/// Whether a word stands on the command line.
fn has_word(words: &Vec<String>, word: &str) -> (found: bool)
    ensures
        found == words.deep_view().contains(word@),
{
    let mut i: usize = 0;
    while i < words.len()
        invariant
            i <= words.len(),
            forall|j: int| 0 <= j < i ==> words.deep_view()[j] != word@,
        decreases words.len() - i,
    {
        assert(words.deep_view()[i as int] == words@[i as int]@);
        if str_eq(words[i].as_str(), word) {
            return true;
        }
        i += 1;
    }
    false
}

impl Args {
    /// Reads the words of a command line.
    pub fn new(words: &Vec<String>) -> (args: Args)
        ensures
            args@ == parsed(words.deep_view()),
    {
        let file = if words.len() > 1 {
            assert(words.deep_view()[1] == words@[1]@);
            words[1].clone()
        } else {
            String::new()
        };
        let help = has_word(words, "-h") || has_word(words, "--help") || file.as_str().is_empty();
        Args {
            file,
            args: has_word(words, "-a") || has_word(words, "--args"),
            help,
            tokens: has_word(words, "-t") || has_word(words, "--tokens"),
            instructions: has_word(words, "-i") || has_word(words, "--instructions"),
            version: has_word(words, "-v") || has_word(words, "--version"),
            memory: has_word(words, "-m") || has_word(words, "--memory"),
        }
    }

    /// The usage text.
    pub fn help_text(&self, package_name: &str) -> (text: String)
        ensures
            text@ == usage_of(package_name@),
    {
        let mut text = "Usage: ".to_owned();
        text.append(package_name);
        text.append(USAGE_TAIL);
        text
    }
}

} // verus!
