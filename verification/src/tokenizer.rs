//! C tokenizer that produces [`Token`] instances.
//!
//! Scanning follows the longest-match rule: at every position the longest
//! token that starts there is taken, and a position where no token starts
//! is a lexical error.

use vstd::prelude::*;
use vstd::string::*;

use crate::token::Token;
use crate::token::TokenV;

verus! {

/// A lexical error; the payload is the diagnostic message.
#[derive(Debug)]
pub struct TokenizeError(pub String);

impl View for TokenizeError {
    type V = Seq<char>;

    open spec fn view(&self) -> Seq<char> {
        self.0@
    }
}

impl PartialEq for TokenizeError {
    fn eq(&self, other: &TokenizeError) -> (r: bool) {
        self.0.eq(&other.0)
    }
}

impl vstd::std_specs::cmp::PartialEqSpecImpl for TokenizeError {
    open spec fn obeys_eq_spec() -> bool {
        true
    }

    open spec fn eq_spec(&self, other: &TokenizeError) -> bool {
        self@ == other@
    }
}

/// Why lexing failed: either no token pattern matches at the current
/// position, or a numeric constant does not fit in an `i32`.
pub enum LexFailure {
    NoMatch,
    ConstantTooLarge,
}

/// The diagnostic message carried by a [`TokenizeError`] for each failure.
pub open spec fn lex_message(f: LexFailure) -> Seq<char> {
    match f {
        LexFailure::NoMatch => "Unable to find match"@,
        LexFailure::ConstantTooLarge => "Constant too large"@,
    }
}

/// Whitespace skipped between tokens.
pub open spec fn is_space(c: char) -> bool {
    c == ' ' || c == '\t' || c == '\n' || c == '\r' || c == '\u{b}' || c == '\u{c}'
}

/// A decimal digit.
pub open spec fn is_digit(c: char) -> bool {
    48 <= c as u32 && c as u32 <= 57
}

/// A character that may continue an identifier or keyword.
pub open spec fn is_word_char(c: char) -> bool {
    (97 <= c as u32 && c as u32 <= 122) || (65 <= c as u32 && c as u32 <= 90) || is_digit(c)
        || c == '_'
}

/// A character that may start an identifier or keyword.
pub open spec fn is_word_start(c: char) -> bool {
    is_word_char(c) && !is_digit(c)
}

/// The end of the run of word characters starting at `i`.
pub open spec fn word_run_end(s: Seq<char>, i: int) -> int
    decreases s.len() - i when 0 <= i <= s.len()
{
    if i < s.len() && is_word_char(s[i]) {
        word_run_end(s, i + 1)
    } else {
        i
    }
}

/// The end of the run of decimal digits starting at `i`.
pub open spec fn digit_run_end(s: Seq<char>, i: int) -> int
    decreases s.len() - i when 0 <= i <= s.len()
{
    if i < s.len() && is_digit(s[i]) {
        digit_run_end(s, i + 1)
    } else {
        i
    }
}

/// Numeric value of a digit.
pub open spec fn digit_val(c: char) -> int {
    c as u32 - 48
}

/// Numeric value of a sequence of decimal digits.
pub open spec fn digits_val(s: Seq<char>) -> int
    decreases s.len(),
{
    if s.len() == 0 {
        0
    } else {
        digits_val(s.drop_last()) * 10 + digit_val(s.last())
    }
}

/// The token a run of word characters stands for: a keyword if it is
/// spelled like one, otherwise an identifier.
pub open spec fn word_token(w: Seq<char>) -> TokenV {
    if w == "int"@ {
        TokenV::Integer
    } else if w == "return"@ {
        TokenV::Return
    } else if w == "void"@ {
        TokenV::Void
    } else {
        TokenV::Identifier(w)
    }
}

/// The token spelled by a two-character operator, if any.
pub open spec fn pair_token(a: char, b: char) -> Option<TokenV> {
    if a == '-' && b == '-' {
        Some(TokenV::DoubleHyphen)
    } else if a == '+' && b == '+' {
        Some(TokenV::DoublePlus)
    } else if a == '&' && b == '&' {
        Some(TokenV::LogicalAnd)
    } else if a == '|' && b == '|' {
        Some(TokenV::LogicalOr)
    } else if a == '=' && b == '=' {
        Some(TokenV::LogicalEqual)
    } else if a == '!' && b == '=' {
        Some(TokenV::LogicalNotEqual)
    } else if a == '<' && b == '=' {
        Some(TokenV::LessThanEqual)
    } else if a == '>' && b == '=' {
        Some(TokenV::GreaterThanEqual)
    } else {
        None
    }
}

/// The token spelled by a single character, if any.
pub open spec fn single_token(c: char) -> Option<TokenV> {
    if c == '(' {
        Some(TokenV::OpenParen)
    } else if c == ')' {
        Some(TokenV::CloseParen)
    } else if c == '{' {
        Some(TokenV::OpenBrace)
    } else if c == '}' {
        Some(TokenV::CloseBrace)
    } else if c == ';' {
        Some(TokenV::Semicolon)
    } else if c == '-' {
        Some(TokenV::Hyphen)
    } else if c == '~' {
        Some(TokenV::Tilde)
    } else if c == '+' {
        Some(TokenV::Plus)
    } else if c == '*' {
        Some(TokenV::Asterisk)
    } else if c == '/' {
        Some(TokenV::ForwardSlash)
    } else if c == '%' {
        Some(TokenV::Percent)
    } else if c == '=' {
        Some(TokenV::Equal)
    } else if c == '!' {
        Some(TokenV::LogicalNot)
    } else if c == '<' {
        Some(TokenV::LessThan)
    } else if c == '>' {
        Some(TokenV::GreaterThan)
    } else {
        None
    }
}

/// Result of scanning for one token at a fixed position.
pub enum LexScan {
    Match(TokenV, int),
    NoMatch,
    TooLarge,
}

/// The longest token starting at position `i`, which must not hold
/// whitespace. A digit run followed by a word character matches no
/// pattern, and a constant that does not fit in an `i32` is its own
/// failure.
pub open spec fn next_token(s: Seq<char>, i: int) -> LexScan
    recommends
        0 <= i < s.len(),
        !is_space(s[i]),
{
    let c = s[i];
    if is_word_start(c) {
        let j = word_run_end(s, i);
        LexScan::Match(word_token(s.subrange(i, j)), j)
    } else if is_digit(c) {
        let j = digit_run_end(s, i);
        if j < s.len() && is_word_char(s[j]) {
            LexScan::NoMatch
        } else if digits_val(s.subrange(i, j)) > i32::MAX {
            LexScan::TooLarge
        } else {
            LexScan::Match(TokenV::Constant(digits_val(s.subrange(i, j)) as i32), j)
        }
    } else if i + 1 < s.len() && pair_token(c, s[i + 1]) is Some {
        LexScan::Match(pair_token(c, s[i + 1])->0, i + 2)
    } else if single_token(c) is Some {
        LexScan::Match(single_token(c)->0, i + 1)
    } else {
        LexScan::NoMatch
    }
}

/// The tokens of `s` from position `i` on.
pub open spec fn tokens_from(s: Seq<char>, i: int) -> Result<Seq<TokenV>, LexFailure>
    decreases s.len() - i when 0 <= i <= s.len()
{
    if i >= s.len() {
        Ok(Seq::empty())
    } else if is_space(s[i]) {
        tokens_from(s, i + 1)
    } else {
        match next_token(s, i) {
            LexScan::NoMatch => Err(LexFailure::NoMatch),
            LexScan::TooLarge => Err(LexFailure::ConstantTooLarge),
            LexScan::Match(t, j) => if i < j <= s.len() {
                match tokens_from(s, j) {
                    Ok(rest) => Ok(seq![t] + rest),
                    Err(f) => Err(f),
                }
            } else {
                Err(LexFailure::NoMatch)
            },
        }
    }
}

/// The runs found by [`word_run_end`] and [`digit_run_end`] stay inside
/// the sequence and do not move backwards.
proof fn lemma_word_run_end_bounds(s: Seq<char>, i: int)
    requires
        0 <= i <= s.len(),
    ensures
        i <= word_run_end(s, i) <= s.len(),
    decreases s.len() - i,
{
    if i < s.len() && is_word_char(s[i]) {
        lemma_word_run_end_bounds(s, i + 1);
    }
}

proof fn lemma_digit_run_end_bounds(s: Seq<char>, i: int)
    requires
        0 <= i <= s.len(),
    ensures
        i <= digit_run_end(s, i) <= s.len(),
    decreases s.len() - i,
{
    if i < s.len() && is_digit(s[i]) {
        lemma_digit_run_end_bounds(s, i + 1);
    }
}

/// The value of a digit run never shrinks when more digits follow.
proof fn lemma_digits_val_nonneg(s: Seq<char>)
    requires
        forall|k: int| 0 <= k < s.len() ==> is_digit(s[k]),
    ensures
        digits_val(s) >= 0,
    decreases s.len(),
{
    if s.len() > 0 {
        lemma_digits_val_nonneg(s.drop_last());
    }
}

proof fn lemma_digits_val_prefix(s: Seq<char>, m: int)
    requires
        0 <= m <= s.len(),
        forall|k: int| 0 <= k < s.len() ==> is_digit(s[k]),
    ensures
        digits_val(s.take(m)) <= digits_val(s),
    decreases s.len(),
{
    if m == s.len() {
        assert(s.take(m) =~= s);
    } else {
        lemma_digits_val_nonneg(s.drop_last());
        lemma_digits_val_prefix(s.drop_last(), m);
        assert(s.drop_last().take(m) =~= s.take(m));
    }
}

fn ch_is_space(c: char) -> (b: bool)
    ensures
        b == is_space(c),
{
    c == ' ' || c == '\t' || c == '\n' || c == '\r' || c == '\u{b}' || c == '\u{c}'
}

fn ch_is_digit(c: char) -> (b: bool)
    ensures
        b == is_digit(c),
{
    let u = c as u32;
    48 <= u && u <= 57
}

fn ch_is_word(c: char) -> (b: bool)
    ensures
        b == is_word_char(c),
{
    let u = c as u32;
    (97 <= u && u <= 122) || (65 <= u && u <= 90) || (48 <= u && u <= 57) || c == '_'
}

fn ch_is_word_start(c: char) -> (b: bool)
    ensures
        b == is_word_start(c),
{
    ch_is_word(c) && !ch_is_digit(c)
}

fn scan_word_end(cs: &Vec<char>, i: usize) -> (j: usize)
    requires
        i <= cs@.len(),
    ensures
        j as int == word_run_end(cs@, i as int),
        i <= j <= cs@.len(),
{
    let mut j = i;
    while j < cs.len() && ch_is_word(cs[j])
        invariant
            i <= j <= cs@.len(),
            word_run_end(cs@, i as int) == word_run_end(cs@, j as int),
        decreases cs@.len() - j,
    {
        j = j + 1;
    }
    j
}

fn scan_digit_end(cs: &Vec<char>, i: usize) -> (j: usize)
    requires
        i <= cs@.len(),
    ensures
        j as int == digit_run_end(cs@, i as int),
        i <= j <= cs@.len(),
        forall|k: int| i <= k < j ==> is_digit(cs@[k]),
{
    let mut j = i;
    while j < cs.len() && ch_is_digit(cs[j])
        invariant
            i <= j <= cs@.len(),
            digit_run_end(cs@, i as int) == digit_run_end(cs@, j as int),
            forall|k: int| i <= k < j ==> is_digit(cs@[k]),
        decreases cs@.len() - j,
    {
        j = j + 1;
    }
    j
}

fn make_word_token(input: &str, cs: &Vec<char>, i: usize, j: usize) -> (t: Token)
    requires
        cs@ == input@,
        i < j <= cs@.len(),
    ensures
        t@ == word_token(cs@.subrange(i as int, j as int)),
{
    proof {
        reveal_strlit("int");
        reveal_strlit("return");
        reveal_strlit("void");
    }
    let ghost w = cs@.subrange(i as int, j as int);
    let n = j - i;
    if n == 3 && cs[i] == 'i' && cs[i + 1] == 'n' && cs[i + 2] == 't' {
        proof {
            assert(w =~= "int"@);
        }
        Token::Integer
    } else if n == 6 && cs[i] == 'r' && cs[i + 1] == 'e' && cs[i + 2] == 't' && cs[i + 3] == 'u'
        && cs[i + 4] == 'r' && cs[i + 5] == 'n' {
        proof {
            assert(w =~= "return"@);
        }
        Token::Return
    } else if n == 4 && cs[i] == 'v' && cs[i + 1] == 'o' && cs[i + 2] == 'i' && cs[i + 3] == 'd' {
        proof {
            assert(w =~= "void"@);
        }
        Token::Void
    } else {
        let name = input.substring_char(i, j).to_owned();
        proof {
            assert(w != "int"@) by {
                if w == "int"@ {
                    assert(cs@[i as int] == w[0] && cs@[i + 1] == w[1] && cs@[i + 2] == w[2]);
                }
            };
            assert(w != "return"@) by {
                if w == "return"@ {
                    assert(w.len() == 6);
                    assert(j - i == 6);
                    assert(cs@[i as int] == w[0]);
                    assert(cs@[i + 1] == w[1]);
                    assert(cs@[i + 2] == w[2]);
                    assert(cs@[i + 3] == w[3]);
                    assert(cs@[i + 4] == w[4]);
                    assert(cs@[i + 5] == w[5]);
                }
            };
            assert(w != "void"@) by {
                if w == "void"@ {
                    assert(w.len() == 4);
                    assert(j - i == 4);
                    assert(cs@[i as int] == w[0]);
                    assert(cs@[i + 1] == w[1]);
                    assert(cs@[i + 2] == w[2]);
                    assert(cs@[i + 3] == w[3]);
                }
            };
        }
        Token::Identifier(name)
    }
}

fn digits_to_i32(cs: &Vec<char>, i: usize, j: usize) -> (r: Option<i32>)
    requires
        i < j <= cs@.len(),
        forall|k: int| i <= k < j ==> is_digit(cs@[k]),
    ensures
        match r {
            Some(v) => digits_val(cs@.subrange(i as int, j as int)) == v as int,
            None => digits_val(cs@.subrange(i as int, j as int)) > i32::MAX,
        },
{
    let ghost full = cs@.subrange(i as int, j as int);
    let mut val: i32 = 0;
    let mut k = i;
    while k < j
        invariant
            i <= k <= j <= cs@.len(),
            forall|m: int| i <= m < j ==> is_digit(cs@[m]),
            full == cs@.subrange(i as int, j as int),
            0 <= val,
            digits_val(cs@.subrange(i as int, k as int)) == val as int,
        decreases j - k,
    {
        let d = (cs[k] as u32) - 48;
        proof {
            assert(cs@.subrange(i as int, k + 1 as int).drop_last() =~= cs@.subrange(
                i as int,
                k as int,
            ));
        }
        if val > (i32::MAX - d as i32) / 10 {
            proof {
                assert(digits_val(cs@.subrange(i as int, k + 1 as int)) > i32::MAX);
                assert(full.take(k + 1 - i) =~= cs@.subrange(i as int, k + 1 as int));
                assert(forall|m: int| 0 <= m < full.len() ==> is_digit(full[m]));
                lemma_digits_val_prefix(full, k + 1 - i);
            }
            return None;
        }
        val = val * 10 + d as i32;
        k = k + 1;
    }
    proof {
        assert(cs@.subrange(i as int, k as int) =~= full);
    }
    Some(val)
}

fn scan_punct(cs: &Vec<char>, i: usize) -> (r: Option<(Token, usize)>)
    requires
        i < cs@.len(),
    ensures
        match r {
            Some(p) => !is_word_start(cs@[i as int]) && !is_digit(cs@[i as int]) ==> next_token(
                cs@,
                i as int,
            ) == LexScan::Match(p.0@, p.1 as int),
            None => !is_word_start(cs@[i as int]) && !is_digit(cs@[i as int]) ==> next_token(
                cs@,
                i as int,
            ) == LexScan::NoMatch,
        },
{
    let m = cs.len();
    let c = cs[i];
    if i + 1 < m {
        let b = cs[i + 1];
        if c == '-' && b == '-' {
            return Some((Token::DoubleHyphen, i + 2));
        }
        if c == '+' && b == '+' {
            return Some((Token::DoublePlus, i + 2));
        }
        if c == '&' && b == '&' {
            return Some((Token::LogicalAnd, i + 2));
        }
        if c == '|' && b == '|' {
            return Some((Token::LogicalOr, i + 2));
        }
        if c == '=' && b == '=' {
            return Some((Token::LogicalEqual, i + 2));
        }
        if c == '!' && b == '=' {
            return Some((Token::LogicalNotEqual, i + 2));
        }
        if c == '<' && b == '=' {
            return Some((Token::LessThanEqual, i + 2));
        }
        if c == '>' && b == '=' {
            return Some((Token::GreaterThanEqual, i + 2));
        }
    }
    if c == '(' {
        Some((Token::OpenParen, i + 1))
    } else if c == ')' {
        Some((Token::CloseParen, i + 1))
    } else if c == '{' {
        Some((Token::OpenBrace, i + 1))
    } else if c == '}' {
        Some((Token::CloseBrace, i + 1))
    } else if c == ';' {
        Some((Token::Semicolon, i + 1))
    } else if c == '-' {
        Some((Token::Hyphen, i + 1))
    } else if c == '~' {
        Some((Token::Tilde, i + 1))
    } else if c == '+' {
        Some((Token::Plus, i + 1))
    } else if c == '*' {
        Some((Token::Asterisk, i + 1))
    } else if c == '/' {
        Some((Token::ForwardSlash, i + 1))
    } else if c == '%' {
        Some((Token::Percent, i + 1))
    } else if c == '=' {
        Some((Token::Equal, i + 1))
    } else if c == '!' {
        Some((Token::LogicalNot, i + 1))
    } else if c == '<' {
        Some((Token::LessThan, i + 1))
    } else if c == '>' {
        Some((Token::GreaterThan, i + 1))
    } else {
        None
    }
}

/// Main lexing function: the ordered token sequence of `input`, or the
/// lexical error at the first position where no token pattern matches.
pub fn tokenize(input: &str) -> (r: Result<Vec<Token>, TokenizeError>)
    ensures
        match r {
            Ok(tokens) => tokens_from(input@, 0) == Ok::<Seq<TokenV>, LexFailure>(
                tokens.deep_view(),
            ),
            Err(e) => {
                &&& tokens_from(input@, 0) is Err
                &&& e@ == lex_message(tokens_from(input@, 0)->Err_0)
            },
        },
{
    let ghost s = input@;
    let n = input.unicode_len();
    let mut cs: Vec<char> = Vec::new();
    let mut idx: usize = 0;
    while idx < n
        invariant
            idx <= n,
            n == s.len(),
            s == input@,
            cs@ == s.take(idx as int),
        decreases n - idx,
    {
        let c = input.get_char(idx);
        cs.push(c);
        idx = idx + 1;
        proof {
            assert(cs@ =~= s.take(idx as int));
        }
    }
    proof {
        assert(cs@ =~= s);
    }

    let mut tokens: Vec<Token> = Vec::new();
    let mut i: usize = 0;
    while i < n
        invariant
            i <= n,
            n == s.len(),
            s == input@,
            cs@ == s,
            match tokens_from(s, i as int) {
                Ok(rest) => tokens_from(s, 0) == Ok::<Seq<TokenV>, LexFailure>(
                    tokens.deep_view() + rest,
                ),
                Err(f) => tokens_from(s, 0) == Err::<Seq<TokenV>, LexFailure>(f),
            },
        decreases n - i,
    {
        let ghost prev = tokens.deep_view();
        let c = cs[i];
        if ch_is_space(c) {
            i = i + 1;
        } else if ch_is_word_start(c) {
            proof {
                lemma_word_run_end_bounds(s, i + 1);
            }
            let j = scan_word_end(&cs, i);
            let t = make_word_token(input, &cs, i, j);
            proof {
                assert(next_token(s, i as int) == LexScan::Match(t@, j as int));
                assert(tokens.deep_view().push(t@) =~= prev + seq![t@]);
            }
            tokens.push(t);
            proof {
                assert(tokens.deep_view() =~= prev + seq![t@]);
                if tokens_from(s, j as int) is Ok {
                    let rest = tokens_from(s, j as int)->Ok_0;
                    assert((prev + seq![t@]) + rest =~= prev + (seq![t@] + rest));
                }
            }
            i = j;
        } else if ch_is_digit(c) {
            proof {
                lemma_digit_run_end_bounds(s, i + 1);
            }
            let j = scan_digit_end(&cs, i);
            if j < n && ch_is_word(cs[j]) {
                proof {
                    assert(next_token(s, i as int) == LexScan::NoMatch);
                }
                return Err(TokenizeError(String::from_str("Unable to find match")));
            }
            match digits_to_i32(&cs, i, j) {
                None => {
                    proof {
                        assert(next_token(s, i as int) == LexScan::TooLarge);
                    }
                    return Err(TokenizeError(String::from_str("Constant too large")));
                },
                Some(v) => {
                    let t = Token::Constant(v);
                    proof {
                        assert(next_token(s, i as int) == LexScan::Match(t@, j as int));
                    }
                    tokens.push(t);
                    proof {
                        assert(tokens.deep_view() =~= prev + seq![t@]);
                        if tokens_from(s, j as int) is Ok {
                            let rest = tokens_from(s, j as int)->Ok_0;
                            assert((prev + seq![t@]) + rest =~= prev + (seq![t@] + rest));
                        }
                    }
                    i = j;
                },
            }
        } else {
            match scan_punct(&cs, i) {
                Some(p) => {
                    let (t, j) = p;
                    proof {
                        assert(next_token(s, i as int) == LexScan::Match(t@, j as int));
                    }
                    tokens.push(t);
                    proof {
                        assert(tokens.deep_view() =~= prev + seq![t@]);
                        if tokens_from(s, j as int) is Ok {
                            let rest = tokens_from(s, j as int)->Ok_0;
                            assert((prev + seq![t@]) + rest =~= prev + (seq![t@] + rest));
                        }
                    }
                    i = j;
                },
                None => {
                    return Err(TokenizeError(String::from_str("Unable to find match")));
                },
            }
        }
    }
    proof {
        assert(tokens.deep_view() + Seq::<TokenV>::empty() =~= tokens.deep_view());
    }
    Ok(tokens)
}

} // verus!
