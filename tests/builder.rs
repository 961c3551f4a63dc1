use simple_regex::RegexBuilder;

fn b() -> RegexBuilder {
    RegexBuilder::new()
}

#[test]
fn new_is_empty() {
    assert_eq!(RegexBuilder::new().build(), "");
}

#[test]
fn single_character_fragments() {
    assert_eq!(b().literal('a').build(), "a");
    assert_eq!(b().dot().build(), ".");
    assert_eq!(b().escape('.').build(), "\\.");
    assert_eq!(b().start_of_line().build(), "^");
    assert_eq!(b().end_of_line().build(), "$");
}

#[test]
fn character_classes() {
    assert_eq!(b().character_class("abc").build(), "[abc]");
    assert_eq!(b().character_class("").build(), "[]");
    assert_eq!(b().negated_character_class("abc").build(), "[^abc]");
    assert_eq!(b().range_character_class('0', '9').build(), "[0-9]");
}

#[test]
fn shorthand_classes() {
    assert_eq!(b().digit().build(), "\\d");
    assert_eq!(b().non_digit().build(), "\\D");
    assert_eq!(b().word_character().build(), "\\w");
    assert_eq!(b().non_word_character().build(), "\\W");
    assert_eq!(b().whitespace().build(), "\\s");
    assert_eq!(b().non_whitespace().build(), "\\S");
    assert_eq!(b().word_boundary().build(), "\\b");
    assert_eq!(b().non_word_boundary().build(), "\\B");
}

#[test]
fn quantifiers() {
    assert_eq!(b().zero_or_more(b().digit()).build(), "\\d*");
    assert_eq!(b().one_or_more(b().digit()).build(), "\\d+");
    assert_eq!(b().zero_or_one(b().literal('+')).build(), "+?");
}

#[test]
fn repetition_counts() {
    assert_eq!(b().exact_repetitions(b().digit(), 3).build(), "\\d{3}");
    assert_eq!(b().exact_repetitions(b().digit(), 0).build(), "\\d{0}");
    assert_eq!(b().min_repetitions(b().digit(), 10).build(), "\\d{10,}");
    assert_eq!(b().range_repetitions(b().digit(), 2, 105).build(), "\\d{2,105}");
}

#[test]
fn largest_repetition_count() {
    let s = b().exact_repetitions(b().dot(), usize::MAX).build();
    assert_eq!(s, format!(".{{{}}}", usize::MAX));
}

#[test]
fn groups_and_alternatives() {
    assert_eq!(b().group(b().literal('a')).build(), "(?:a)");
    assert_eq!(b().group(b().character_class("ab")).build(), "(?:[ab])");
    assert_eq!(b().capturing_group(b().literal('a')).build(), "(a)");
    assert_eq!(b().non_capturing_group(b().literal('a')).build(), "(?:a)");
    assert_eq!(b().alternative(b().literal('a'), b().literal('b')).build(), "a|b");
    assert_eq!(b().backreference(1).build(), "\\1");
    assert_eq!(b().backreference(12).build(), "\\12");
}

#[test]
fn flag_fragments() {
    assert_eq!(b().case_insensitive(b().character_class("a")).build(), "(?i[a])");
    assert_eq!(b().global_search(b().character_class("a")).build(), "(?g[a])");
    assert_eq!(b().multiline(b().character_class("a")).build(), "(?m[a])");
    assert_eq!(b().dot_all(b().character_class("a")).build(), "(?s[a])");
}

#[test]
fn bounded_words_and_lookaround() {
    assert_eq!(b().bound_word(b().literal('a')).build(), "\\ba\\b");
    assert_eq!(b().bound_word(b().character_class("a")).build(), "\\b[a]\\b");
    assert_eq!(b().negative_word_boundary(b().literal('a')).build(), "\\Ba\\B");
    assert_eq!(b().negative_word_boundary(b().character_class("a")).build(), "\\B[a]\\B");
    assert_eq!(b().positive_lookahead(b().literal('a')).build(), "(?=a)");
    assert_eq!(b().negative_lookahead(b().literal('a')).build(), "(?!a)");
    assert_eq!(b().positive_lookbehind(b().literal('a')).build(), "(?<=a)");
    assert_eq!(b().negative_lookbehind(b().literal('a')).build(), "(?<!a)");
}

#[test]
fn calls_append_in_order_and_mutate_in_place() {
    let mut x = RegexBuilder::new();
    let copy = x.literal('a');
    x.digit();
    assert_eq!(copy.build(), "a");
    assert_eq!(x.build(), "a\\d");
}

#[test]
fn email_pattern() {
    let builder = RegexBuilder::new().bound_word(
        RegexBuilder::new()
            .character_class("A-Za-z0-9._%+-")
            .literal('@')
            .character_class("A-Za-z0-9.-")
            .literal('\\')
            .dot()
            .exact_repetitions(RegexBuilder::new().character_class("A-Za-z"), 2),
    );
    assert_eq!(builder.build(), "\\b[A-Za-z0-9._%+-]@[A-Za-z0-9.-]\\.[A-Za-z]{2}\\b");
    let regex = builder.to_regex_or_panic();
    assert!(regex.is_match("a@b.cd"));
    assert!(regex.is_match("mail x@y.az here"));
    assert!(!regex.is_match("asasinbro3@gmail.com"));
}

#[test]
fn phone_pattern() {
    let builder = RegexBuilder::new()
        .start_of_line()
        .zero_or_more(RegexBuilder::new().whitespace())
        .group(RegexBuilder::new().alternative(
            RegexBuilder::new().alternative(
                RegexBuilder::new()
                    .zero_or_one(RegexBuilder::new().literal('+'))
                    .exact_repetitions(RegexBuilder::new().range_character_class('0', '9'), 10),
                RegexBuilder::new()
                    .literal('(')
                    .exact_repetitions(RegexBuilder::new().digit(), 3)
                    .literal(')'),
            ),
            RegexBuilder::new().exact_repetitions(RegexBuilder::new().digit(), 3),
        ))
        .zero_or_more(RegexBuilder::new().whitespace())
        .end_of_line();
    assert_eq!(builder.build(), "^\\s*(?:+?[0-9]{10}|(\\d{3})|\\d{3})\\s*$");
}

#[test]
fn valid_pattern_compiles() {
    let builder = b().start_of_line().one_or_more(b().digit()).end_of_line();
    let regex = builder.to_regex().unwrap();
    assert_eq!(regex.as_str(), "^\\d+$");
    assert!(regex.is_match("12345"));
    assert!(!regex.is_match("12a45"));
    assert!(builder.to_regex_checked().is_some());
}

#[test]
fn invalid_pattern_is_reported_by_engine() {
    let builder = b().literal('(').literal('a');
    assert!(builder.to_regex().is_err());
    assert!(builder.to_regex_checked().is_none());
}

#[test]
fn unsupported_flag_is_reported_by_engine() {
    let builder = b().global_search(b().literal('a'));
    assert!(builder.to_regex().is_err());
}
