use mips_sim::numbers::{decimal_string, digit_of, read_i32, read_u32};
use mips_sim::text::{chars_of, is_blank, is_space, str_eq, string_of, trimmed_end};
use mips_sim::tokenizer::{
    classify_word, parse_directive, split_fragments, split_lines, tokenize, unescape_string,
    Directive, Token, TokenizerError,
};

fn chars(s: &str) -> Vec<char> {
    s.chars().collect()
}

fn words(line: &str) -> Vec<String> {
    split_fragments(&chars(line)).iter().map(|w| w.iter().collect()).collect()
}

fn label(name: &str, decl: bool) -> Token {
    Token::Label { name: name.to_string(), decl }
}

fn register(name: &str) -> Token {
    Token::Register { value: name.to_string() }
}

fn operator(name: &str) -> Token {
    Token::Operator { value: name.to_string() }
}

#[test]
fn chars_and_strings_convert_both_ways() {
    assert_eq!(chars_of("añb"), vec!['a', 'ñ', 'b']);
    assert_eq!(string_of(&vec!['x', 'é']), "xé");
    assert_eq!(chars_of(""), Vec::<char>::new());
    assert!(str_eq("syscall", "syscall"));
    assert!(!str_eq("syscall", "syscalL"));
    assert!(!str_eq("li", "lii"));
    assert!(str_eq("", ""));
}

#[test]
fn trailing_whitespace_is_trimmed() {
    assert_eq!(trimmed_end(&chars("12 \t\r\n")), chars("12"));
    assert_eq!(trimmed_end(&chars("  12")), chars("  12"));
    assert_eq!(trimmed_end(&chars(" \n")), chars(""));
}

#[test]
fn whitespace_is_what_the_standard_library_calls_whitespace() {
    for code in 0..=0x10FFFFu32 {
        if let Some(c) = char::from_u32(code) {
            assert_eq!(is_space(c), c.is_whitespace());
            assert_eq!(is_blank(c), c.is_ascii_whitespace());
        }
    }
}

#[test]
fn trailing_whitespace_beyond_ascii_is_trimmed() {
    assert_eq!(trimmed_end(&chars("12\u{A0}\u{0B}\u{3000}\u{2028}\n")), chars("12"));
    assert_eq!(trimmed_end(&chars("12\u{200B}")), chars("12\u{200B}"));
    assert_eq!(trimmed_end(&chars("\u{A0}7")), chars("\u{A0}7"));
}

#[test]
fn digits_by_radix() {
    assert_eq!(digit_of('7', 10), Some(7));
    assert_eq!(digit_of('a', 16), Some(10));
    assert_eq!(digit_of('F', 16), Some(15));
    assert_eq!(digit_of('g', 16), None);
    assert_eq!(digit_of('a', 10), None);
    assert_eq!(digit_of('z', 36), Some(35));
    assert_eq!(digit_of(' ', 10), None);
}

#[test]
fn signed_numbers_at_the_limits() {
    assert_eq!(read_i32(&chars("2147483647"), 0, 10), Some(i32::MAX));
    assert_eq!(read_i32(&chars("2147483648"), 0, 10), None);
    assert_eq!(read_i32(&chars("-2147483648"), 0, 10), Some(i32::MIN));
    assert_eq!(read_i32(&chars("-2147483649"), 0, 10), None);
    assert_eq!(read_i32(&chars("+5"), 0, 10), Some(5));
    assert_eq!(read_i32(&chars("-0"), 0, 10), Some(0));
    assert_eq!(read_i32(&chars("000000000000042"), 0, 10), Some(42));
    assert_eq!(read_i32(&chars(""), 0, 10), None);
    assert_eq!(read_i32(&chars("-"), 0, 10), None);
    assert_eq!(read_i32(&chars("+"), 0, 10), None);
    assert_eq!(read_i32(&chars("12a"), 0, 10), None);
    assert_eq!(read_i32(&chars(" 12"), 0, 10), None);
    assert_eq!(read_i32(&chars("99999999999999999999999"), 0, 10), None);
}

#[test]
fn hexadecimal_numbers() {
    assert_eq!(read_i32(&chars("0x12345678"), 2, 16), Some(0x12345678));
    assert_eq!(read_i32(&chars("0x7FFFFFFF"), 2, 16), Some(i32::MAX));
    assert_eq!(read_i32(&chars("0x80000000"), 2, 16), None);
    assert_eq!(read_i32(&chars("0xffffffff"), 2, 16), None);
    assert_eq!(read_i32(&chars("0x-80000000"), 2, 16), Some(i32::MIN));
    assert_eq!(read_i32(&chars("0x"), 2, 16), None);
    assert_eq!(read_i32(&chars("0xfg"), 2, 16), None);
}

#[test]
fn unsigned_numbers() {
    assert_eq!(read_u32(&chars("4294967295")), Some(u32::MAX));
    assert_eq!(read_u32(&chars("4294967296")), None);
    assert_eq!(read_u32(&chars("+7")), Some(7));
    assert_eq!(read_u32(&chars("-7")), None);
    assert_eq!(read_u32(&chars("")), None);
    assert_eq!(read_u32(&chars("0")), Some(0));
}

#[test]
fn numbers_agree_with_the_standard_parsers() {
    let samples = [
        "0", "1", "-1", "+1", "32767", "-32768", "65536", "2147483647", "-2147483648",
        "2147483648", "", "-", "+", "1_000", "0x10", "١٢", "12 ", "--1", "+-1", "007",
    ];
    for s in samples {
        assert_eq!(read_i32(&chars(s), 0, 10), s.parse::<i32>().ok());
        assert_eq!(read_i32(&chars(s), 0, 16), i32::from_str_radix(s, 16).ok());
        assert_eq!(read_u32(&chars(s)), s.parse::<u32>().ok());
    }
}

#[test]
fn decimal_strings() {
    assert_eq!(decimal_string(0), "0");
    assert_eq!(decimal_string(7), "7");
    assert_eq!(decimal_string(42), "42");
    assert_eq!(decimal_string(305419896), "305419896");
    assert_eq!(decimal_string(u32::MAX), "4294967295");
    assert_eq!(decimal_string(1000), "1000");
}

#[test]
fn directives_by_name() {
    assert_eq!(parse_directive(".data"), Ok(Directive::DataDirective));
    assert_eq!(parse_directive(".text"), Ok(Directive::TextDirective));
    assert_eq!(parse_directive(".globl"), Ok(Directive::GlobalDirective));
    assert_eq!(parse_directive(".ascii"), Ok(Directive::AsciiDirective));
    assert_eq!(parse_directive(".asciiz"), Ok(Directive::AsciizDirective));
    assert_eq!(parse_directive(".byte"), Ok(Directive::ByteDirective));
    assert_eq!(parse_directive(".word"), Ok(Directive::WordDirective));
    assert_eq!(
        parse_directive(".half"),
        Err(TokenizerError::UnknownDirective(".half".to_string()))
    );
    assert_eq!(parse_directive("data"), Err(TokenizerError::UnknownDirective("data".to_string())));
}

#[test]
fn escapes_are_decoded() {
    assert_eq!(unescape_string(r#"a\nb"#), "a\nb");
    assert_eq!(unescape_string(r#"a\tb"#), "a\tb");
    assert_eq!(unescape_string(r#"a\\b"#), "a\\b");
    assert_eq!(unescape_string(r#"a\"b"#), "a\"b");
    assert_eq!(unescape_string("plain"), "plain");
    assert_eq!(unescape_string(""), "");
}

#[test]
fn unknown_escape_keeps_the_backslash() {
    assert_eq!(unescape_string(r#"a\qb"#), "a\\b");
    assert_eq!(unescape_string(r#"end\"#), "end\\");
}

#[test]
fn lines_are_split_at_newlines() {
    let lines = split_lines(&chars("a\nbc\n\nd"));
    assert_eq!(lines, vec![chars("a"), chars("bc"), chars(""), chars("d")]);
    assert_eq!(split_lines(&chars("a\n")), vec![chars("a")]);
    assert_eq!(split_lines(&chars("")), Vec::<Vec<char>>::new());
    assert_eq!(split_lines(&chars("\n")), vec![chars("")]);
    assert_eq!(split_lines(&chars("a\n\n")), vec![chars("a"), chars("")]);
}

#[test]
fn words_are_split_at_whitespace_and_commas() {
    assert_eq!(words("addi $t0, $t1,5"), vec!["addi", "$t0", "$t1", "5"]);
    assert_eq!(words("  a\t\tb ,, c  "), vec!["a", "b", "c"]);
    assert_eq!(words(""), Vec::<String>::new());
    assert_eq!(words(" , "), Vec::<String>::new());
}

#[test]
fn separators_inside_a_string_stay() {
    assert_eq!(words(r#".asciiz "Hello, world!\n""#), vec![".asciiz", r#""Hello, world!\n""#]);
    assert_eq!(words(r#"a "b c" d"#), vec!["a", r#""b c""#, "d"]);
    assert_eq!(words(r#"x"y z"w v"#), vec![r#"x"y z"w"#, "v"]);
    assert_eq!(words(r#""open to the end"#), vec![r#""open to the end"#]);
}

#[test]
fn classification_takes_the_first_rule_that_fits() {
    let c = |w: &str, first: bool| classify_word(&chars(w), first);
    assert_eq!(c(".data", true), Ok(Token::Directive { kind: Directive::DataDirective }));
    assert_eq!(c(".nope", false), Err(TokenizerError::UnknownDirective(".nope".to_string())));
    assert_eq!(c(r#""hi\n""#, false), Ok(Token::Text { value: "hi\n".to_string() }));
    assert_eq!(c(r#""""#, false), Ok(Token::Text { value: String::new() }));
    assert_eq!(c("0x10", false), Ok(Token::Number { value: 16 }));
    assert_eq!(c("-12", false), Ok(Token::Number { value: -12 }));
    assert_eq!(c("$t0", false), Ok(register("$t0")));
    assert_eq!(c("$nonsense", true), Ok(register("$nonsense")));
    assert_eq!(c("main:", true), Ok(label("main", true)));
    assert_eq!(c("a::", false), Ok(label("a", true)));
    assert_eq!(c(":", false), Ok(label("", true)));
    assert_eq!(c("li", true), Ok(operator("li")));
    assert_eq!(c("li", false), Ok(label("li", false)));
}

#[test]
fn words_that_only_look_like_numbers_or_strings() {
    let c = |w: &str, first: bool| classify_word(&chars(w), first);
    assert_eq!(c("0xFFFFFFFF", false), Ok(label("0xFFFFFFFF", false)));
    assert_eq!(c("0x", true), Ok(operator("0x")));
    assert_eq!(c("\"", false), Ok(label("\"", false)));
    assert_eq!(c("\"abc", false), Ok(label("\"abc", false)));
    assert_eq!(c("3000000000", false), Ok(label("3000000000", false)));
    assert_eq!(c("$5:", false), Ok(register("$5:")));
    assert_eq!(c("12:", false), Ok(label("12", true)));
}

#[test]
fn tokenize_a_small_program() {
    let source = "# a comment line\n.data\nmsg: .asciiz \"Hi, you\" # trailing\n.text\n.globl main\nmain:\n  li $v0, 4\n";
    let lines = tokenize(source).unwrap();
    assert_eq!(
        lines,
        vec![
            vec![Token::Directive { kind: Directive::DataDirective }],
            vec![
                label("msg", true),
                Token::Directive { kind: Directive::AsciizDirective },
                Token::Text { value: "Hi, you".to_string() },
            ],
            vec![Token::Directive { kind: Directive::TextDirective }],
            vec![Token::Directive { kind: Directive::GlobalDirective }, label("main", false)],
            vec![label("main", true)],
            vec![operator("li"), register("$v0"), Token::Number { value: 4 }],
        ]
    );
}

#[test]
fn comment_lines_vanish_and_other_comments_leave_a_line() {
    assert_eq!(tokenize("#x\n#y").unwrap(), Vec::<Vec<Token>>::new());
    assert_eq!(tokenize(" #x").unwrap(), vec![Vec::<Token>::new()]);
    assert_eq!(tokenize("\n\n").unwrap(), vec![Vec::<Token>::new(), Vec::<Token>::new()]);
    assert_eq!(tokenize("").unwrap(), Vec::<Vec<Token>>::new());
    assert_eq!(tokenize("syscall # go").unwrap(), vec![vec![operator("syscall")]]);
}

#[test]
fn a_hash_inside_a_string_still_starts_a_comment() {
    assert_eq!(
        tokenize(".ascii \"a#b\"").unwrap(),
        vec![vec![Token::Directive { kind: Directive::AsciiDirective }, label("\"a", false)]]
    );
}

#[test]
fn operator_follows_label_declarations() {
    assert_eq!(
        tokenize("main: li $v0, 1").unwrap(),
        vec![vec![label("main", true), operator("li"), register("$v0"), Token::Number { value: 1 }]]
    );
    assert_eq!(
        tokenize("a: b: syscall").unwrap(),
        vec![vec![label("a", true), label("b", true), operator("syscall")]]
    );
    assert_eq!(
        tokenize("la $a0, msg").unwrap(),
        vec![vec![operator("la"), register("$a0"), label("msg", false)]]
    );
    assert_eq!(
        tokenize("$t0 add").unwrap(),
        vec![vec![register("$t0"), label("add", false)]]
    );
}

#[test]
fn unknown_directive_stops_the_lexer() {
    assert_eq!(
        tokenize(".text\n  .frob 1\n.bad"),
        Err(TokenizerError::UnknownDirective(".frob".to_string()))
    );
    assert_eq!(tokenize("# .frob\n.text").unwrap().len(), 1);
}
