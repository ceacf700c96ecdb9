//! The lexer: source text to lines of tokens.

use crate::numbers::{parse_i32, read_i32};
use crate::text::{chars_of, is_ascii_whitespace, is_blank, str_eq, string_of};
use vstd::prelude::*;

verus! {

/// The assembler directives.
#[derive(Debug, Clone, Copy, PartialEq, Eq, Structural)]
pub enum Directive {
    DataDirective,
    TextDirective,
    GlobalDirective,
    AsciiDirective,
    AsciizDirective,
    ByteDirective,
    WordDirective,
}

/// One lexical unit of a source line.
#[allow(inconsistent_fields)]
#[derive(Debug, Clone, PartialEq, Eq)]
pub enum Token {
    /// A word that begins with `.`.
    Directive { kind: Directive },
    /// A word that begins with `$`, kept as written.
    Register { value: String },
    /// A label; `decl` holds where the word ended in `:`.
    Label { name: String, decl: bool },
    /// A decimal or hexadecimal literal.
    Number { value: i32 },
    /// The mnemonic of an instruction.
    Operator { value: String },
    /// A string literal, with its escapes decoded.
    Text { value: String },
}

/// The mathematical content of a [`Token`].
#[allow(inconsistent_fields)]
pub enum TokenView {
    Directive { kind: Directive },
    Register { value: Seq<char> },
    Label { name: Seq<char>, decl: bool },
    Number { value: i32 },
    Operator { value: Seq<char> },
    Text { value: Seq<char> },
}

impl View for Token {
    type V = TokenView;

    open spec fn view(&self) -> TokenView {
        match self {
            Token::Directive { kind } => TokenView::Directive { kind: *kind },
            Token::Register { value } => TokenView::Register { value: value@ },
            Token::Label { name, decl } => TokenView::Label { name: name@, decl: *decl },
            Token::Number { value } => TokenView::Number { value: *value },
            Token::Operator { value } => TokenView::Operator { value: value@ },
            Token::Text { value } => TokenView::Text { value: value@ },
        }
    }
}

impl DeepView for Token {
    type V = TokenView;

    open spec fn deep_view(&self) -> TokenView {
        self@
    }
}

/// Why a source text could not be turned into tokens.
#[derive(Debug, Clone, PartialEq, Eq)]
pub enum TokenizerError {
    /// The source file could not be opened.
    OpenFileError(String),
    /// The source file could not be read.
    ReadFileError(String),
    /// A word begins with `.` and names no directive.
    UnknownDirective(String),
}

/// The mathematical content of a [`TokenizerError`].
pub enum TokenizerErrorView {
    OpenFileError(Seq<char>),
    ReadFileError(Seq<char>),
    UnknownDirective(Seq<char>),
}

impl View for TokenizerError {
    type V = TokenizerErrorView;

    open spec fn view(&self) -> TokenizerErrorView {
        match self {
            TokenizerError::OpenFileError(name) => TokenizerErrorView::OpenFileError(name@),
            TokenizerError::ReadFileError(name) => TokenizerErrorView::ReadFileError(name@),
            TokenizerError::UnknownDirective(name) => TokenizerErrorView::UnknownDirective(name@),
        }
    }
}

/// The directive that a word names.
pub open spec fn directive_of_name(name: Seq<char>) -> Option<Directive> {
    if name == ".data"@ {
        Some(Directive::DataDirective)
    } else if name == ".text"@ {
        Some(Directive::TextDirective)
    } else if name == ".globl"@ {
        Some(Directive::GlobalDirective)
    } else if name == ".ascii"@ {
        Some(Directive::AsciiDirective)
    } else if name == ".asciiz"@ {
        Some(Directive::AsciizDirective)
    } else if name == ".byte"@ {
        Some(Directive::ByteDirective)
    } else if name == ".word"@ {
        Some(Directive::WordDirective)
    } else {
        None
    }
}

/// The position of the first `c` in `s`, or the length of `s` where it
/// holds none.
pub open spec fn first_index(s: Seq<char>, c: char) -> int
    decreases s.len(),
{
    if s.len() == 0 || s[0] == c {
        0
    } else {
        1 + first_index(s.skip(1), c)
    }
}

/// The lines of a text: the stretches between newlines. A newline at the
/// very end opens no further line.
pub open spec fn lines(text: Seq<char>) -> Seq<Seq<char>>
    decreases text.len(),
{
    let n = first_index(text, '\n');
    if text.len() == 0 {
        seq![]
    } else if 0 <= n < text.len() {
        seq![text.take(n)] + lines(text.skip(n + 1))
    } else {
        seq![text]
    }
}

/// Whether a whole line is a comment: its first character is `#`.
pub open spec fn is_comment_line(line: Seq<char>) -> bool {
    line.len() > 0 && line[0] == '#'
}

/// A line without its comment: what stands before the first `#`.
pub open spec fn strip_comment(line: Seq<char>) -> Seq<char> {
    line.take(first_index(line, '#'))
}

/// Whether a character parts two words: ASCII whitespace or a comma.
pub open spec fn is_separator(c: char) -> bool {
    is_ascii_whitespace(c) || c == ','
}

/// A word as a one-element list, and no list for the empty word.
pub open spec fn word_if_any(word: Seq<char>) -> Seq<Seq<char>> {
    if word.len() > 0 {
        seq![word]
    } else {
        seq![]
    }
}

/// The words of a line, scanned from the left. Every `"` switches between
/// inside and outside a string and stays in its word; outside a string a
/// separator ends the word before it. `inside` and `word` hold the state
/// of the scan: whether a string is open, and the word begun so far.
pub open spec fn fragments(line: Seq<char>, inside: bool, word: Seq<char>) -> Seq<Seq<char>>
    decreases line.len(),
{
    if line.len() == 0 {
        word_if_any(word)
    } else if line[0] == '"' {
        fragments(line.skip(1), !inside, word.push(line[0]))
    } else if !inside && is_separator(line[0]) {
        word_if_any(word) + fragments(line.skip(1), inside, seq![])
    } else {
        fragments(line.skip(1), inside, word.push(line[0]))
    }
}

/// A string literal's content with its escapes decoded: `\n`, `\t`, `\\`
/// and `\"` stand for one character each. After any other backslash the
/// backslash is kept and the character behind it is dropped.
pub open spec fn unescape(s: Seq<char>) -> Seq<char>
    decreases s.len(),
{
    if s.len() == 0 {
        seq![]
    } else if s[0] != '\\' {
        seq![s[0]] + unescape(s.skip(1))
    } else if s.len() == 1 {
        seq!['\\']
    } else {
        seq![escaped(s[1])] + unescape(s.skip(2))
    }
}

/// What a backslash and the character behind it stand for.
pub open spec fn escaped(c: char) -> char {
    if c == 'n' {
        '\n'
    } else if c == 't' {
        '\t'
    } else if c == '"' {
        '"'
    } else {
        '\\'
    }
}

/// A word without the colons at its end.
pub open spec fn trim_colons(s: Seq<char>) -> Seq<char>
    decreases s.len(),
{
    if s.len() > 0 && s.last() == ':' {
        trim_colons(s.drop_last())
    } else {
        s
    }
}

/// The token that a word is. The first of these that fits decides: a
/// directive (`.`), a quoted string, a hexadecimal number (`0x`), a decimal
/// number, a register (`$`), a label declaration (a colon at the end), and
/// last a bare word, which is an operator in operator position and a label
/// reference elsewhere.
pub open spec fn classify(word: Seq<char>, operator_position: bool) -> Result<
    TokenView,
    TokenizerErrorView,
> {
    if word.len() > 0 && word[0] == '.' {
        match directive_of_name(word) {
            Some(kind) => Ok(TokenView::Directive { kind }),
            None => Err(TokenizerErrorView::UnknownDirective(word)),
        }
    } else if word.len() >= 2 && word[0] == '"' && word.last() == '"' {
        Ok(TokenView::Text { value: unescape(word.subrange(1, word.len() - 1)) })
    } else if word.len() >= 2 && word[0] == '0' && word[1] == 'x' && parse_i32(word.skip(2), 16)
        is Some {
        Ok(TokenView::Number { value: parse_i32(word.skip(2), 16)->0 })
    } else if parse_i32(word, 10) is Some {
        Ok(TokenView::Number { value: parse_i32(word, 10)->0 })
    } else if word.len() > 0 && word[0] == '$' {
        Ok(TokenView::Register { value: word })
    } else if word.len() > 0 && word.last() == ':' {
        Ok(TokenView::Label { name: trim_colons(word), decl: true })
    } else if operator_position {
        Ok(TokenView::Operator { value: word })
    } else {
        Ok(TokenView::Label { name: word, decl: false })
    }
}

/// Whether a token declares a label.
pub open spec fn is_label_declaration(token: TokenView) -> bool {
    token matches TokenView::Label { decl, .. } && decl
}

/// A list put before the outcome of what follows it; a failure stays.
pub open spec fn prepend<T, E>(head: Seq<T>, tail: Result<Seq<T>, E>) -> Result<Seq<T>, E> {
    match tail {
        Ok(rest) => Ok(head + rest),
        Err(e) => Err(e),
    }
}

/// The tokens of a list of words, or the first failure. A word stands in
/// operator position while nothing but label declarations came before it.
pub open spec fn classify_all(words: Seq<Seq<char>>, operator_position: bool) -> Result<
    Seq<TokenView>,
    TokenizerErrorView,
>
    decreases words.len(),
{
    if words.len() == 0 {
        Ok(seq![])
    } else {
        match classify(words[0], operator_position) {
            Err(e) => Err(e),
            Ok(token) => prepend(
                seq![token],
                classify_all(words.skip(1), operator_position && is_label_declaration(token)),
            ),
        }
    }
}

/// The tokens of one line: its comment is cut off, the rest is parted
/// into words, and each word is classified.
pub open spec fn tokenize_line(line: Seq<char>) -> Result<Seq<TokenView>, TokenizerErrorView> {
    classify_all(fragments(strip_comment(line), false, seq![]), true)
}

/// The token lines of a list of lines: one for each line that is no
/// comment line, in order, or the first failure.
pub open spec fn tokenize_lines(all: Seq<Seq<char>>) -> Result<
    Seq<Seq<TokenView>>,
    TokenizerErrorView,
>
    decreases all.len(),
{
    if all.len() == 0 {
        Ok(seq![])
    } else if is_comment_line(all[0]) {
        tokenize_lines(all.skip(1))
    } else {
        match tokenize_line(all[0]) {
            Err(e) => Err(e),
            Ok(tokens) => prepend(seq![tokens], tokenize_lines(all.skip(1))),
        }
    }
}

/// The token lines of a source text.
pub open spec fn tokenize_text(text: Seq<char>) -> Result<Seq<Seq<TokenView>>, TokenizerErrorView> {
    tokenize_lines(lines(text))
}

/// Looks a directive up by its name, with the leading `.`.
pub fn parse_directive(token: &str) -> (result: Result<Directive, TokenizerError>)
    ensures
        match directive_of_name(token@) {
            Some(kind) => result == Ok::<Directive, TokenizerError>(kind),
            None => result is Err && result->Err_0@ == TokenizerErrorView::UnknownDirective(
                token@,
            ),
        },
{
    if str_eq(token, ".data") {
        Ok(Directive::DataDirective)
    } else if str_eq(token, ".text") {
        Ok(Directive::TextDirective)
    } else if str_eq(token, ".globl") {
        Ok(Directive::GlobalDirective)
    } else if str_eq(token, ".ascii") {
        Ok(Directive::AsciiDirective)
    } else if str_eq(token, ".asciiz") {
        Ok(Directive::AsciizDirective)
    } else if str_eq(token, ".byte") {
        Ok(Directive::ByteDirective)
    } else if str_eq(token, ".word") {
        Ok(Directive::WordDirective)
    } else {
        Err(TokenizerError::UnknownDirective(token.to_owned()))
    }
}

/// The characters of `s` from `from` up to `to`.
pub fn slice_of(s: &Vec<char>, from: usize, to: usize) -> (part: Vec<char>)
    requires
        from <= to <= s.len(),
    ensures
        part@ == s@.subrange(from as int, to as int),
{
    let mut part: Vec<char> = Vec::new();
    let mut i: usize = from;
    while i < to
        invariant
            from <= i <= to <= s.len(),
            part@ == s@.subrange(from as int, i as int),
        decreases to - i,
    {
        part.push(s[i]);
        assert(s@.subrange(from as int, i + 1) =~= s@.subrange(from as int, i as int).push(
            s@[i as int],
        ));
        i += 1;
    }
    part
}

/// The position of the first `c` at or after `from`, or the length of `s`.
pub fn find_char(s: &Vec<char>, from: usize, c: char) -> (at: usize)
    requires
        from <= s.len(),
    ensures
        from <= at <= s.len(),
        at - from == first_index(s@.skip(from as int), c),
{
    let mut i: usize = from;
    while i < s.len() && s[i] != c
        invariant
            from <= i <= s.len(),
            first_index(s@.skip(from as int), c) == (i - from) + first_index(s@.skip(i as int), c),
        decreases s.len() - i,
    {
        assert(s@.skip(i as int).skip(1) =~= s@.skip(i + 1));
        i += 1;
    }
    assert(i < s.len() ==> s@.skip(i as int)[0] == c);
    i
}

/// Decodes the escapes of a string literal's content.
pub fn unescape_chars(s: &Vec<char>) -> (decoded: Vec<char>)
    ensures
        decoded@ == unescape(s@),
{
    let mut decoded: Vec<char> = Vec::new();
    let mut i: usize = 0;
    assert(s@.skip(0) =~= s@);
    while i < s.len()
        invariant
            i <= s.len(),
            decoded@ + unescape(s@.skip(i as int)) == unescape(s@),
        decreases s.len() - i,
    {
        let ghost rest = s@.skip(i as int);
        let ghost before = decoded@;
        let c = s[i];
        if c != '\\' {
            decoded.push(c);
            assert(rest.skip(1) =~= s@.skip(i + 1));
            assert(decoded@ + unescape(s@.skip(i + 1)) =~= before + unescape(rest));
            i += 1;
        } else if i + 1 == s.len() {
            decoded.push(c);
            assert(rest.len() == 1);
            assert(unescape(s@.skip(i + 1)) =~= Seq::<char>::empty());
            assert(decoded@ + unescape(s@.skip(i + 1)) =~= before + unescape(rest));
            i += 1;
        } else {
            let next = s[i + 1];
            let out = if next == 'n' {
                '\n'
            } else if next == 't' {
                '\t'
            } else if next == '"' {
                '"'
            } else {
                '\\'
            };
            decoded.push(out);
            assert(rest[1] == next);
            assert(rest.skip(2) =~= s@.skip(i + 2));
            assert(decoded@ + unescape(s@.skip(i + 2)) =~= before + unescape(rest));
            i += 2;
        }
    }
    assert(unescape(s@.skip(i as int)) =~= Seq::<char>::empty());
    assert(decoded@ + Seq::<char>::empty() =~= decoded@);
    decoded
}

/// Decodes the escapes `\n`, `\t`, `\\` and `\"` of a string literal's
/// content.
pub fn unescape_string(s: &str) -> (decoded: String)
    ensures
        decoded@ == unescape(s@),
{
    let chars = chars_of(s);
    let decoded = unescape_chars(&chars);
    string_of(&decoded)
}

/// Parts a text into its lines.
pub fn split_lines(text: &Vec<char>) -> (all: Vec<Vec<char>>)
    ensures
        all.deep_view() == lines(text@),
{
    let mut all: Vec<Vec<char>> = Vec::new();
    let mut pos: usize = 0;
    assert(text@.skip(0) =~= text@);
    assert(all.deep_view() + lines(text@) =~= lines(text@));
    while pos < text.len()
        invariant
            pos <= text.len(),
            all.deep_view() + lines(text@.skip(pos as int)) == lines(text@),
        decreases text.len() - pos,
    {
        let ghost rest = text@.skip(pos as int);
        let ghost before = all.deep_view();
        let end = find_char(text, pos, '\n');
        let line = slice_of(text, pos, end);
        assert(line@ =~= rest.take(end - pos));
        assert(line.deep_view() =~= line@);
        all.push(line);
        assert(all.deep_view() =~= before.push(line@));
        if end < text.len() {
            assert(rest.skip(end - pos + 1) =~= text@.skip(end + 1));
            assert(all.deep_view() + lines(text@.skip(end + 1)) =~= before + lines(rest));
            pos = end + 1;
        } else {
            assert(line@ =~= rest);
            assert(lines(text@.skip(end as int)) =~= Seq::<Seq<char>>::empty());
            assert(all.deep_view() + lines(text@.skip(end as int)) =~= before + lines(rest));
            pos = end;
        }
    }
    assert(lines(text@.skip(pos as int)) =~= Seq::<Seq<char>>::empty());
    assert(all.deep_view() + Seq::<Seq<char>>::empty() =~= all.deep_view());
    all
}

/// Whether a character parts two words.
pub fn separates(c: char) -> (yes: bool)
    ensures
        yes == is_separator(c),
{
    is_blank(c) || c == ','
}

/// Parts a line into its words.
pub fn split_fragments(line: &Vec<char>) -> (words: Vec<Vec<char>>)
    ensures
        words.deep_view() == fragments(line@, false, seq![]),
{
    let mut words: Vec<Vec<char>> = Vec::new();
    let mut word: Vec<char> = Vec::new();
    let mut inside = false;
    let mut i: usize = 0;
    assert(line@.skip(0) =~= line@);
    assert(words.deep_view() + fragments(line@, false, seq![]) =~= fragments(line@, false, seq![]));
    while i < line.len()
        invariant
            i <= line.len(),
            words.deep_view() + fragments(line@.skip(i as int), inside, word@) == fragments(
                line@,
                false,
                seq![],
            ),
        decreases line.len() - i,
    {
        let ghost rest = line@.skip(i as int);
        let ghost before = words.deep_view();
        let ghost pending = word@;
        let c = line[i];
        assert(rest.skip(1) =~= line@.skip(i + 1));
        assert(rest[0] == c);
        if c == '"' {
            inside = !inside;
            word.push(c);
        } else if !inside && separates(c) {
            if word.len() > 0 {
                assert(word.deep_view() =~= pending);
                words.push(word);
                word = Vec::new();
                assert(words.deep_view() =~= before + word_if_any(pending));
            } else {
                assert(words.deep_view() =~= before + word_if_any(pending));
            }
            assert(word@ =~= Seq::<char>::empty());
            assert(words.deep_view() + fragments(line@.skip(i + 1), inside, word@) =~= before
                + fragments(rest, inside, pending));
        } else {
            word.push(c);
        }
        i += 1;
    }
    let ghost before = words.deep_view();
    let ghost pending = word@;
    if word.len() > 0 {
        assert(word.deep_view() =~= pending);
        words.push(word);
    }
    assert(words.deep_view() =~= before + word_if_any(pending));
    words
}

/// Cuts the colons off the end of a word.
pub fn without_colons(word: &Vec<char>) -> (name: Vec<char>)
    ensures
        name@ == trim_colons(word@),
{
    let mut end: usize = word.len();
    assert(word@.take(end as int) =~= word@);
    while end > 0 && word[end - 1] == ':'
        invariant
            end <= word.len(),
            trim_colons(word@) == trim_colons(word@.take(end as int)),
        decreases end,
    {
        assert(word@.take(end as int).drop_last() =~= word@.take(end - 1));
        end -= 1;
    }
    let name = slice_of(word, 0, end);
    assert(name@ =~= word@.take(end as int));
    name
}

/// Classifies one word.
pub fn classify_word(word: &Vec<char>, operator_position: bool) -> (result: Result<
    Token,
    TokenizerError,
>)
    ensures
        match classify(word@, operator_position) {
            Ok(token) => result is Ok && result->Ok_0@ == token,
            Err(e) => result is Err && result->Err_0@ == e,
        },
{
    let n = word.len();
    assert(word@.skip(0) =~= word@);
    if n > 0 && word[0] == '.' {
        let name = string_of(word);
        match parse_directive(name.as_str()) {
            Ok(kind) => Ok(Token::Directive { kind }),
            Err(e) => Err(e),
        }
    } else if n >= 2 && word[0] == '"' && word[n - 1] == '"' {
        let inner = slice_of(word, 1, n - 1);
        let value = string_of(&unescape_chars(&inner));
        Ok(Token::Text { value })
    } else {
        let hex = if n >= 2 && word[0] == '0' && word[1] == 'x' {
            read_i32(word, 2, 16)
        } else {
            None
        };
        if let Some(value) = hex {
            Ok(Token::Number { value })
        } else if let Some(value) = read_i32(word, 0, 10) {
            Ok(Token::Number { value })
        } else if n > 0 && word[0] == '$' {
            Ok(Token::Register { value: string_of(word) })
        } else if n > 0 && word[n - 1] == ':' {
            let name = without_colons(word);
            Ok(Token::Label { name: string_of(&name), decl: true })
        } else if operator_position {
            Ok(Token::Operator { value: string_of(word) })
        } else {
            Ok(Token::Label { name: string_of(word), decl: false })
        }
    }
}

proof fn lemma_prepend_push<T, E>(done: Seq<T>, item: T, tail: Result<Seq<T>, E>)
    ensures
        prepend(done, prepend(seq![item], tail)) == prepend(done.push(item), tail),
{
    if let Ok(rest) = tail {
        assert(done + (seq![item] + rest) =~= done.push(item) + rest);
    }
}

/// Turns one line into its tokens.
pub fn tokenize_one_line(line: &Vec<char>) -> (result: Result<Vec<Token>, TokenizerError>)
    ensures
        match tokenize_line(line@) {
            Ok(tokens) => result is Ok && result->Ok_0.deep_view() == tokens,
            Err(e) => result is Err && result->Err_0@ == e,
        },
{
    let cut = find_char(line, 0, '#');
    assert(line@.skip(0) =~= line@);
    let code = slice_of(line, 0, cut);
    assert(code@ =~= strip_comment(line@));
    let words = split_fragments(&code);
    let ghost all = words.deep_view();
    let mut tokens: Vec<Token> = Vec::new();
    let mut operator_position = true;
    let mut i: usize = 0;
    assert(all.skip(0) =~= all);
    assert(tokens.deep_view() =~= Seq::<TokenView>::empty());
    assert(prepend(tokens.deep_view(), classify_all(all, true)) == classify_all(all, true)) by {
        if let Ok(rest) = classify_all(all, true) {
            assert(tokens.deep_view() + rest =~= rest);
        }
    }
    while i < words.len()
        invariant
            i <= words.len(),
            all == words.deep_view(),
            tokenize_line(line@) == classify_all(all, true),
            prepend(tokens.deep_view(), classify_all(all.skip(i as int), operator_position))
                == classify_all(all, true),
        decreases words.len() - i,
    {
        let ghost rest = all.skip(i as int);
        let ghost done = tokens.deep_view();
        assert(words@[i as int].deep_view() =~= words@[i as int]@);
        assert(rest[0] == words@[i as int]@);
        assert(rest.skip(1) =~= all.skip(i + 1));
        match classify_word(&words[i], operator_position) {
            Err(e) => {
                return Err(e);
            },
            Ok(token) => {
                let ghost seen = token@;
                let declares = match &token {
                    Token::Label { decl, .. } => *decl,
                    _ => false,
                };
                proof {
                    lemma_prepend_push(
                        done,
                        seen,
                        classify_all(rest.skip(1), operator_position && is_label_declaration(seen)),
                    );
                }
                tokens.push(token);
                assert(tokens.deep_view() =~= done.push(seen));
                operator_position = operator_position && declares;
            },
        }
        i += 1;
    }
    assert(tokens.deep_view() + Seq::<TokenView>::empty() =~= tokens.deep_view());
    Ok(tokens)
}

/// Turns a source text into its token lines: one list of tokens for each
/// line that is no comment line. Fails at the first word that begins with
/// `.` and names no directive.
pub fn tokenize(source: &str) -> (result: Result<Vec<Vec<Token>>, TokenizerError>)
    ensures
        match tokenize_text(source@) {
            Ok(token_lines) => result is Ok && result->Ok_0.deep_view() == token_lines,
            Err(e) => result is Err && result->Err_0@ == e,
        },
{
    let text = chars_of(source);
    let all = split_lines(&text);
    let ghost views = all.deep_view();
    let mut token_lines: Vec<Vec<Token>> = Vec::new();
    let mut i: usize = 0;
    assert(views.skip(0) =~= views);
    assert(token_lines.deep_view() =~= Seq::<Seq<TokenView>>::empty());
    assert(prepend(token_lines.deep_view(), tokenize_lines(views)) == tokenize_lines(views)) by {
        if let Ok(rest) = tokenize_lines(views) {
            assert(token_lines.deep_view() + rest =~= rest);
        }
    }
    while i < all.len()
        invariant
            i <= all.len(),
            views == all.deep_view(),
            views == lines(source@),
            prepend(token_lines.deep_view(), tokenize_lines(views.skip(i as int)))
                == tokenize_lines(views),
        decreases all.len() - i,
    {
        let ghost rest = views.skip(i as int);
        let ghost done = token_lines.deep_view();
        let line = &all[i];
        assert(line.deep_view() =~= line@);
        assert(rest[0] == line@);
        assert(rest.skip(1) =~= views.skip(i + 1));
        if !(line.len() > 0 && line[0] == '#') {
            match tokenize_one_line(line) {
                Err(e) => {
                    return Err(e);
                },
                Ok(tokens) => {
                    let ghost seen = tokens.deep_view();
                    proof {
                        lemma_prepend_push(done, seen, tokenize_lines(rest.skip(1)));
                    }
                    token_lines.push(tokens);
                    assert(token_lines.deep_view() =~= done.push(seen));
                },
            }
        }
        i += 1;
    }
    assert(token_lines.deep_view() + Seq::<Seq<TokenView>>::empty() =~= token_lines.deep_view());
    Ok(token_lines)
}

} // verus!
