//! The pattern builder: each call appends one fragment of regex syntax to an
//! owned buffer and hands back a copy of the builder, so calls can be chained.
use vstd::prelude::*;
use vstd::string::StringExecFns;
use crate::decimal::{decimal, push_decimal};
use crate::engine::{compile, engine_accepts, pattern_of};
use crate::text::push_char;

verus! {

/// A pattern under construction. Its view is the pattern text built so far.
/// The builder checks nothing: whether the text is a valid pattern is decided
/// by the engine when it is compiled.
#[derive(Clone)]
pub struct RegexBuilder {
    value: String,
}

impl View for RegexBuilder {
    type V = Seq<char>;

    closed spec fn view(&self) -> Seq<char> {
        self.value@
    }
}

impl RegexBuilder {
    /// An empty pattern.
    pub fn new() -> (r: Self)
        ensures
            r@ == Seq::<char>::empty(),
    {
        RegexBuilder { value: String::new() }
    }

    /// A builder with the same pattern text.
    fn snapshot(&self) -> (r: Self)
        ensures
            r@ == self@,
    {
        RegexBuilder { value: self.value.clone() }
    }

    fn push(&mut self, c: char)
        ensures
            final(self)@ == old(self)@.push(c),
    {
        push_char(&mut self.value, c);
    }

    fn push_text(&mut self, s: &str)
        ensures
            final(self)@ == old(self)@ + s@,
    {
        self.value.append(s);
    }

    /// Compiles the pattern with the `regex` engine, returning the engine's
    /// own result: `Ok` exactly when the engine accepts the pattern, with a
    /// matcher built from this builder's pattern.
    pub fn to_regex(&self) -> (r: Result<regex::Regex, regex::Error>)
        ensures
            r is Ok <==> engine_accepts(self@),
            r is Ok ==> pattern_of(r->Ok_0) == self@,
    {
        compile(self.value.as_str())
    }

    /// Compiles the pattern with the `regex` engine; the pattern must be one
    /// that the engine accepts. The matcher is built from this builder's
    /// pattern.
    pub fn to_regex_or_panic(&self) -> (r: regex::Regex)
        requires
            engine_accepts(self@),
        ensures
            pattern_of(r) == self@,
    {
        self.to_regex().unwrap()
    }

    /// Compiles the pattern with the `regex` engine where the engine accepts
    /// it, and gives `None` where it does not.
    pub fn to_regex_checked(&self) -> (r: Option<regex::Regex>)
        ensures
            r is Some <==> engine_accepts(self@),
            r is Some ==> pattern_of(r->Some_0) == self@,
    {
        match self.to_regex() {
            Ok(_) => Some(self.to_regex_or_panic()),
            Err(_) => None,
        }
    }

    /// The pattern text built so far.
    pub fn build(&self) -> (r: String)
        ensures
            r@ == self@,
    {
        self.value.clone()
    }

    /// Appends the character `char_` as it is.
    pub fn literal(&mut self, char_: char) -> (r: Self)
        ensures
            final(self)@ == old(self)@.push(char_),
            r@ == final(self)@,
    {
        self.push(char_);
        self.snapshot()
    }

    /// Appends `.`, any character.
    pub fn dot(&mut self) -> (r: Self)
        ensures
            final(self)@ == old(self)@ + seq!['.'],
            r@ == final(self)@,
    {
        self.push('.');
        assert(self@ =~= old(self)@ + seq!['.']);
        self.snapshot()
    }

    /// Appends `char_` escaped with a backslash.
    pub fn escape(&mut self, char_: char) -> (r: Self)
        ensures
            final(self)@ == old(self)@ + seq!['\\', char_],
            r@ == final(self)@,
    {
        self.push('\\');
        self.push(char_);
        assert(self@ =~= old(self)@ + seq!['\\', char_]);
        self.snapshot()
    }

    /// Appends `^`, the start anchor.
    pub fn start_of_line(&mut self) -> (r: Self)
        ensures
            final(self)@ == old(self)@ + seq!['^'],
            r@ == final(self)@,
    {
        self.push('^');
        assert(self@ =~= old(self)@ + seq!['^']);
        self.snapshot()
    }

    /// Appends `$`, the end anchor.
    pub fn end_of_line(&mut self) -> (r: Self)
        ensures
            final(self)@ == old(self)@ + seq!['$'],
            r@ == final(self)@,
    {
        self.push('$');
        assert(self@ =~= old(self)@ + seq!['$']);
        self.snapshot()
    }

    /// Appends `[chars]`, a class of the given characters.
    pub fn character_class(&mut self, chars: &str) -> (r: Self)
        ensures
            final(self)@ == old(self)@ + seq!['['] + chars@ + seq![']'],
            r@ == final(self)@,
    {
        self.push('[');
        self.push_text(chars);
        self.push(']');
        assert(self@ =~= old(self)@ + seq!['['] + chars@ + seq![']']);
        self.snapshot()
    }

    /// Appends `[^chars]`, a class of every character but the given ones.
    pub fn negated_character_class(&mut self, chars: &str) -> (r: Self)
        ensures
            final(self)@ == old(self)@ + seq!['[', '^'] + chars@ + seq![']'],
            r@ == final(self)@,
    {
        self.push('[');
        self.push('^');
        self.push_text(chars);
        self.push(']');
        assert(self@ =~= old(self)@ + seq!['[', '^'] + chars@ + seq![']']);
        self.snapshot()
    }

    /// Appends `[start-end]`, a class of a range of characters.
    pub fn range_character_class(&mut self, start: char, end: char) -> (r: Self)
        ensures
            final(self)@ == old(self)@ + seq!['[', start, '-', end, ']'],
            r@ == final(self)@,
    {
        self.push('[');
        self.push(start);
        self.push('-');
        self.push(end);
        self.push(']');
        assert(self@ =~= old(self)@ + seq!['[', start, '-', end, ']']);
        self.snapshot()
    }

    /// Appends `\d`, any digit.
    pub fn digit(&mut self) -> (r: Self)
        ensures
            final(self)@ == old(self)@ + seq!['\\', 'd'],
            r@ == final(self)@,
    {
        self.push('\\');
        self.push('d');
        assert(self@ =~= old(self)@ + seq!['\\', 'd']);
        self.snapshot()
    }

    /// Appends `\D`, any character but a digit.
    pub fn non_digit(&mut self) -> (r: Self)
        ensures
            final(self)@ == old(self)@ + seq!['\\', 'D'],
            r@ == final(self)@,
    {
        self.push('\\');
        self.push('D');
        assert(self@ =~= old(self)@ + seq!['\\', 'D']);
        self.snapshot()
    }

    /// Appends `\w`, any word character.
    pub fn word_character(&mut self) -> (r: Self)
        ensures
            final(self)@ == old(self)@ + seq!['\\', 'w'],
            r@ == final(self)@,
    {
        self.push('\\');
        self.push('w');
        assert(self@ =~= old(self)@ + seq!['\\', 'w']);
        self.snapshot()
    }

    /// Appends `\W`, any character but a word character.
    pub fn non_word_character(&mut self) -> (r: Self)
        ensures
            final(self)@ == old(self)@ + seq!['\\', 'W'],
            r@ == final(self)@,
    {
        self.push('\\');
        self.push('W');
        assert(self@ =~= old(self)@ + seq!['\\', 'W']);
        self.snapshot()
    }

    /// Appends `\s`, any whitespace character.
    pub fn whitespace(&mut self) -> (r: Self)
        ensures
            final(self)@ == old(self)@ + seq!['\\', 's'],
            r@ == final(self)@,
    {
        self.push('\\');
        self.push('s');
        assert(self@ =~= old(self)@ + seq!['\\', 's']);
        self.snapshot()
    }

    /// Appends `\S`, any character but whitespace.
    pub fn non_whitespace(&mut self) -> (r: Self)
        ensures
            final(self)@ == old(self)@ + seq!['\\', 'S'],
            r@ == final(self)@,
    {
        self.push('\\');
        self.push('S');
        assert(self@ =~= old(self)@ + seq!['\\', 'S']);
        self.snapshot()
    }

    /// Appends the pattern of `regex` followed by `*`.
    pub fn zero_or_more(&mut self, regex: RegexBuilder) -> (r: Self)
        ensures
            final(self)@ == old(self)@ + regex@ + seq!['*'],
            r@ == final(self)@,
    {
        self.push_text(regex.value.as_str());
        self.push('*');
        assert(self@ =~= old(self)@ + regex@ + seq!['*']);
        self.snapshot()
    }

    /// Appends the pattern of `regex` followed by `+`.
    pub fn one_or_more(&mut self, regex: RegexBuilder) -> (r: Self)
        ensures
            final(self)@ == old(self)@ + regex@ + seq!['+'],
            r@ == final(self)@,
    {
        self.push_text(regex.value.as_str());
        self.push('+');
        assert(self@ =~= old(self)@ + regex@ + seq!['+']);
        self.snapshot()
    }

    /// Appends the pattern of `regex` followed by `?`.
    pub fn zero_or_one(&mut self, regex: RegexBuilder) -> (r: Self)
        ensures
            final(self)@ == old(self)@ + regex@ + seq!['?'],
            r@ == final(self)@,
    {
        self.push_text(regex.value.as_str());
        self.push('?');
        assert(self@ =~= old(self)@ + regex@ + seq!['?']);
        self.snapshot()
    }

    /// Appends `regex{n}`: the pattern of `regex` repeated exactly `n` times.
    pub fn exact_repetitions(&mut self, regex: RegexBuilder, n: usize) -> (r: Self)
        ensures
            final(self)@ == old(self)@ + regex@ + seq!['{'] + decimal(n as nat) + seq!['}'],
            r@ == final(self)@,
    {
        self.push_text(regex.value.as_str());
        self.push('{');
        push_decimal(&mut self.value, n);
        self.push('}');
        assert(self@ =~= old(self)@ + regex@ + seq!['{'] + decimal(n as nat) + seq!['}']);
        self.snapshot()
    }

    /// Appends `regex{n,}`: the pattern of `regex` repeated at least `n` times.
    pub fn min_repetitions(&mut self, regex: RegexBuilder, n: usize) -> (r: Self)
        ensures
            final(self)@ == old(self)@ + regex@ + seq!['{'] + decimal(n as nat) + seq![',', '}'],
            r@ == final(self)@,
    {
        self.push_text(regex.value.as_str());
        self.push('{');
        push_decimal(&mut self.value, n);
        self.push(',');
        self.push('}');
        assert(self@ =~= old(self)@ + regex@ + seq!['{'] + decimal(n as nat) + seq![',', '}']);
        self.snapshot()
    }

    /// Appends `regex{n,m}`: the pattern of `regex` repeated from `n` to `m` times.
    pub fn range_repetitions(&mut self, regex: RegexBuilder, n: usize, m: usize) -> (r: Self)
        ensures
            final(self)@ == old(self)@ + regex@ + seq!['{'] + decimal(n as nat) + seq![','] + decimal(m as nat) + seq!['}'],
            r@ == final(self)@,
    {
        self.push_text(regex.value.as_str());
        self.push('{');
        push_decimal(&mut self.value, n);
        self.push(',');
        push_decimal(&mut self.value, m);
        self.push('}');
        assert(self@ =~= old(self)@ + regex@ + seq!['{'] + decimal(n as nat) + seq![','] + decimal(m as nat) + seq!['}']);
        self.snapshot()
    }

    /// Appends `(?:regex)`, a group around the pattern of `regex` that
    /// captures nothing.
    pub fn group(&mut self, regex: RegexBuilder) -> (r: Self)
        ensures
            final(self)@ == old(self)@ + seq!['(', '?', ':'] + regex@ + seq![')'],
            r@ == final(self)@,
    {
        self.push('(');
        self.push('?');
        self.push(':');
        self.push_text(regex.value.as_str());
        self.push(')');
        assert(self@ =~= old(self)@ + seq!['(', '?', ':'] + regex@ + seq![')']);
        self.snapshot()
    }

    /// Appends `\n`, a reference back to group number `group_number`.
    pub fn backreference(&mut self, group_number: usize) -> (r: Self)
        ensures
            final(self)@ == old(self)@ + seq!['\\'] + decimal(group_number as nat),
            r@ == final(self)@,
    {
        self.push('\\');
        push_decimal(&mut self.value, group_number);
        assert(self@ =~= old(self)@ + seq!['\\'] + decimal(group_number as nat));
        self.snapshot()
    }

    /// Appends `\b`, a word boundary.
    pub fn word_boundary(&mut self) -> (r: Self)
        ensures
            final(self)@ == old(self)@ + seq!['\\', 'b'],
            r@ == final(self)@,
    {
        self.push('\\');
        self.push('b');
        assert(self@ =~= old(self)@ + seq!['\\', 'b']);
        self.snapshot()
    }

    /// Appends `\B`, a position that is no word boundary.
    pub fn non_word_boundary(&mut self) -> (r: Self)
        ensures
            final(self)@ == old(self)@ + seq!['\\', 'B'],
            r@ == final(self)@,
    {
        self.push('\\');
        self.push('B');
        assert(self@ =~= old(self)@ + seq!['\\', 'B']);
        self.snapshot()
    }

    /// Appends `(?iregex)`: the pattern of `regex` under the case-insensitive flag.
    pub fn case_insensitive(&mut self, regex: RegexBuilder) -> (r: Self)
        ensures
            final(self)@ == old(self)@ + seq!['(', '?', 'i'] + regex@ + seq![')'],
            r@ == final(self)@,
    {
        self.push('(');
        self.push('?');
        self.push('i');
        self.push_text(regex.value.as_str());
        self.push(')');
        assert(self@ =~= old(self)@ + seq!['(', '?', 'i'] + regex@ + seq![')']);
        self.snapshot()
    }

    /// Appends `(?gregex)`: the pattern of `regex` under the global-search flag.
    pub fn global_search(&mut self, regex: RegexBuilder) -> (r: Self)
        ensures
            final(self)@ == old(self)@ + seq!['(', '?', 'g'] + regex@ + seq![')'],
            r@ == final(self)@,
    {
        self.push('(');
        self.push('?');
        self.push('g');
        self.push_text(regex.value.as_str());
        self.push(')');
        assert(self@ =~= old(self)@ + seq!['(', '?', 'g'] + regex@ + seq![')']);
        self.snapshot()
    }

    /// Appends `(?mregex)`: the pattern of `regex` under the multiline flag.
    pub fn multiline(&mut self, regex: RegexBuilder) -> (r: Self)
        ensures
            final(self)@ == old(self)@ + seq!['(', '?', 'm'] + regex@ + seq![')'],
            r@ == final(self)@,
    {
        self.push('(');
        self.push('?');
        self.push('m');
        self.push_text(regex.value.as_str());
        self.push(')');
        assert(self@ =~= old(self)@ + seq!['(', '?', 'm'] + regex@ + seq![')']);
        self.snapshot()
    }

    /// Appends `(?sregex)`: the pattern of `regex` under the dot-all flag.
    pub fn dot_all(&mut self, regex: RegexBuilder) -> (r: Self)
        ensures
            final(self)@ == old(self)@ + seq!['(', '?', 's'] + regex@ + seq![')'],
            r@ == final(self)@,
    {
        self.push('(');
        self.push('?');
        self.push('s');
        self.push_text(regex.value.as_str());
        self.push(')');
        assert(self@ =~= old(self)@ + seq!['(', '?', 's'] + regex@ + seq![')']);
        self.snapshot()
    }

    /// Appends `regex1|regex2`, either of two patterns.
    pub fn alternative(&mut self, regex1: RegexBuilder, regex2: RegexBuilder) -> (r: Self)
        ensures
            final(self)@ == old(self)@ + regex1@ + seq!['|'] + regex2@,
            r@ == final(self)@,
    {
        self.push_text(regex1.value.as_str());
        self.push('|');
        self.push_text(regex2.value.as_str());
        assert(self@ =~= old(self)@ + regex1@ + seq!['|'] + regex2@);
        self.snapshot()
    }

    /// Appends `(regex)`, a capturing group around the pattern of `regex`.
    pub fn capturing_group(&mut self, regex: RegexBuilder) -> (r: Self)
        ensures
            final(self)@ == old(self)@ + seq!['('] + regex@ + seq![')'],
            r@ == final(self)@,
    {
        self.push('(');
        self.push_text(regex.value.as_str());
        self.push(')');
        assert(self@ =~= old(self)@ + seq!['('] + regex@ + seq![')']);
        self.snapshot()
    }

    /// Appends `(?:regex)`, a group that captures nothing.
    pub fn non_capturing_group(&mut self, regex: RegexBuilder) -> (r: Self)
        ensures
            final(self)@ == old(self)@ + seq!['(', '?', ':'] + regex@ + seq![')'],
            r@ == final(self)@,
    {
        self.push('(');
        self.push('?');
        self.push(':');
        self.push_text(regex.value.as_str());
        self.push(')');
        assert(self@ =~= old(self)@ + seq!['(', '?', ':'] + regex@ + seq![')']);
        self.snapshot()
    }

    /// Appends `\bregex\b`: the pattern of `regex` between word boundaries.
    pub fn bound_word(&mut self, regex: RegexBuilder) -> (r: Self)
        ensures
            final(self)@ == old(self)@ + seq!['\\', 'b'] + regex@ + seq!['\\', 'b'],
            r@ == final(self)@,
    {
        self.push('\\');
        self.push('b');
        self.push_text(regex.value.as_str());
        self.push('\\');
        self.push('b');
        assert(self@ =~= old(self)@ + seq!['\\', 'b'] + regex@ + seq!['\\', 'b']);
        self.snapshot()
    }

    /// Appends `\Bregex\B`: the pattern of `regex` between two positions that are no word boundary.
    pub fn negative_word_boundary(&mut self, regex: RegexBuilder) -> (r: Self)
        ensures
            final(self)@ == old(self)@ + seq!['\\', 'B'] + regex@ + seq!['\\', 'B'],
            r@ == final(self)@,
    {
        self.push('\\');
        self.push('B');
        self.push_text(regex.value.as_str());
        self.push('\\');
        self.push('B');
        assert(self@ =~= old(self)@ + seq!['\\', 'B'] + regex@ + seq!['\\', 'B']);
        self.snapshot()
    }

    /// Appends `(?=regex)`, a positive lookahead.
    pub fn positive_lookahead(&mut self, regex: RegexBuilder) -> (r: Self)
        ensures
            final(self)@ == old(self)@ + seq!['(', '?', '='] + regex@ + seq![')'],
            r@ == final(self)@,
    {
        self.push('(');
        self.push('?');
        self.push('=');
        self.push_text(regex.value.as_str());
        self.push(')');
        assert(self@ =~= old(self)@ + seq!['(', '?', '='] + regex@ + seq![')']);
        self.snapshot()
    }

    /// Appends `(?!regex)`, a negative lookahead.
    pub fn negative_lookahead(&mut self, regex: RegexBuilder) -> (r: Self)
        ensures
            final(self)@ == old(self)@ + seq!['(', '?', '!'] + regex@ + seq![')'],
            r@ == final(self)@,
    {
        self.push('(');
        self.push('?');
        self.push('!');
        self.push_text(regex.value.as_str());
        self.push(')');
        assert(self@ =~= old(self)@ + seq!['(', '?', '!'] + regex@ + seq![')']);
        self.snapshot()
    }

    /// Appends `(?<=regex)`, a positive lookbehind.
    pub fn positive_lookbehind(&mut self, regex: RegexBuilder) -> (r: Self)
        ensures
            final(self)@ == old(self)@ + seq!['(', '?', '<', '='] + regex@ + seq![')'],
            r@ == final(self)@,
    {
        self.push('(');
        self.push('?');
        self.push('<');
        self.push('=');
        self.push_text(regex.value.as_str());
        self.push(')');
        assert(self@ =~= old(self)@ + seq!['(', '?', '<', '='] + regex@ + seq![')']);
        self.snapshot()
    }

    /// Appends `(?<!regex)`, a negative lookbehind.
    pub fn negative_lookbehind(&mut self, regex: RegexBuilder) -> (r: Self)
        ensures
            final(self)@ == old(self)@ + seq!['(', '?', '<', '!'] + regex@ + seq![')'],
            r@ == final(self)@,
    {
        self.push('(');
        self.push('?');
        self.push('<');
        self.push('!');
        self.push_text(regex.value.as_str());
        self.push(')');
        assert(self@ =~= old(self)@ + seq!['(', '?', '<', '!'] + regex@ + seq![')']);
        self.snapshot()
    }
}

} // verus!
