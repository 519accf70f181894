//! The tag lexer: one playlist line (already stripped of its leading `#`)
//! becomes a `Tag` value or a parse error, by way of a cursor-based
//! attribute-list sub-parser for the `name=value` micro-grammar.
use crate::decimal::decimal_fits;
use crate::decimal::decimal_of;
use crate::decimal::parse_decimal;
use crate::decimal::valid_decimal;
use crate::decimal::Decimal;
use crate::playlist_type::playlist_type_of;
use crate::playlist_type::ParsePlaylistTypeError;
use crate::playlist_type::PlaylistType;
use crate::strutil::all_digits;
use crate::strutil::char_at;
use crate::strutil::dec_val;
use crate::strutil::is_digit;
use crate::strutil::lemma_run_end;
use crate::strutil::lemma_run_end_found;
use crate::strutil::parse_u64_digits;
use crate::strutil::run_end;
use crate::strutil::str_eq;
use crate::strutil::str_len;
use crate::strutil::str_starts_with;
use crate::strutil::substring;
use crate::video_range_of;
use crate::ParseVideoRangeError;
use crate::VideoRange;
use vstd::prelude::*;
use vstd::string::StrSliceExecFns;

verus! {

/// Whether `c` may stand in an attribute name: upper-case letters, digits
/// and hyphens.
pub open spec fn spec_attr_key_char(c: char) -> bool {
    ('A' <= c && c <= 'Z') || ('0' <= c && c <= '9') || c == '-'
}

/// Whether `c` is a white-space character, as Unicode defines the
/// `White_Space` property.
pub open spec fn spec_space_char(c: char) -> bool {
    c == ' ' || c == '\t' || c == '\n' || c == '\u{b}' || c == '\u{c}' || c == '\r' || c
        == '\u{85}' || c == '\u{a0}' || c == '\u{1680}' || ('\u{2000}' <= c && c <= '\u{200a}') || c
        == '\u{2028}' || c == '\u{2029}' || c == '\u{202f}' || c == '\u{205f}' || c == '\u{3000}'
}

/// Whether `c` may stand in an enumerated string: anything but a comma, a
/// double quote or white space.
pub open spec fn spec_enum_char(c: char) -> bool {
    c != ',' && c != '"' && !spec_space_char(c)
}

/// Whether `c` may stand in a quoted string: anything but a double quote or
/// a line break.
pub open spec fn spec_qstr_char(c: char) -> bool {
    c != '\r' && c != '\n' && c != '"'
}

/// Whether `c` may stand in a decimal-floating-point run.
pub open spec fn spec_digit_dot_char(c: char) -> bool {
    is_digit(c) || c == '.'
}

/// The attribute-name character class, as a predicate value.
pub open spec fn key_pred() -> spec_fn(char) -> bool {
    |c: char| spec_attr_key_char(c)
}

/// The enumerated-string character class, as a predicate value.
pub open spec fn enum_pred() -> spec_fn(char) -> bool {
    |c: char| spec_enum_char(c)
}

/// The quoted-string character class, as a predicate value.
pub open spec fn qstr_pred() -> spec_fn(char) -> bool {
    |c: char| spec_qstr_char(c)
}

/// The digit character class, as a predicate value.
pub open spec fn digit_pred() -> spec_fn(char) -> bool {
    |c: char| is_digit(c)
}

/// The digit-or-point character class, as a predicate value.
pub open spec fn digit_dot_pred() -> spec_fn(char) -> bool {
    |c: char| spec_digit_dot_char(c)
}

/// Whether `c` is an ASCII decimal digit.
pub fn is_digit_char(c: char) -> (b: bool)
    ensures
        b == is_digit(c),
{
    c >= '0' && c <= '9'
}

/// Whether `c` may stand in a decimal-floating-point run.
pub fn is_digit_dot_char(c: char) -> (b: bool)
    ensures
        b == spec_digit_dot_char(c),
{
    (c >= '0' && c <= '9') || c == '.'
}

/// Whether `c` may stand in a quoted string.
pub fn is_qstr_char(c: char) -> (b: bool)
    ensures
        b == spec_qstr_char(c),
{
    c != '\r' && c != '\n' && c != '"'
}

/// Whether `c` may stand in an attribute name.
pub fn is_valid_attribute_key_char(c: char) -> (b: bool)
    ensures
        b == spec_attr_key_char(c),
{
    (c >= 'A' && c <= 'Z') || (c >= '0' && c <= '9') || c == '-'
}

/// Whether `c` is white space, by the Unicode `White_Space` list.
pub fn is_space_char(c: char) -> (b: bool)
    ensures
        b == spec_space_char(c),
{
    c == ' ' || c == '\t' || c == '\n' || c == '\u{b}' || c == '\u{c}' || c == '\r' || c == '\u{85}'
        || c == '\u{a0}' || c == '\u{1680}' || (c >= '\u{2000}' && c <= '\u{200a}') || c
        == '\u{2028}' || c == '\u{2029}' || c == '\u{202f}' || c == '\u{205f}' || c == '\u{3000}'
}

/// Whether `c` may stand in an enumerated string.
pub fn is_valid_enumerated_string_char(c: char) -> (b: bool)
    ensures
        b == spec_enum_char(c),
{
    c != ',' && c != '"' && !is_space_char(c)
}

/// An error that may occur while parsing an attribute list, at the view
/// level: what the contracts speak of.
pub enum SpecAttrError {
    /// Got an unexpected character
    UnexpectedChar { actual: char },
    /// Unexpected end of input
    UnexpectedEnd,
    /// Invalid decimal integer
    InvalidDecimalInteger,
    /// Invalid decimal floating point
    InvalidDecimalFloatingPoint,
}

/// An error that may occur while parsing an attribute list
#[derive(Debug, PartialEq, Eq, Clone)]
pub enum AttributeListParseError {
    /// Got an unexpected char
    UnexpectedChar { expected: &'static str, actual: char },
    /// Unexpected end of input
    UnexpectedEnd,
    /// Invalid decimal integer: the digits do not fit
    InvalidDecimalInteger,
    /// Invalid decimal floating point
    InvalidDecimalFloatingPoint,
}

impl View for AttributeListParseError {
    type V = SpecAttrError;

    open spec fn view(&self) -> SpecAttrError {
        match self {
            AttributeListParseError::UnexpectedChar { expected, actual } => {
                SpecAttrError::UnexpectedChar { actual: *actual }
            },
            AttributeListParseError::UnexpectedEnd => SpecAttrError::UnexpectedEnd,
            AttributeListParseError::InvalidDecimalInteger => SpecAttrError::InvalidDecimalInteger,
            AttributeListParseError::InvalidDecimalFloatingPoint => {
                SpecAttrError::InvalidDecimalFloatingPoint
            },
        }
    }
}

/// The name in a `name=value` pair, read at `pos`: a non-empty run of
/// attribute-name characters, with the cursor after it.
pub open spec fn spec_name(s: Seq<char>, pos: int) -> Result<(Seq<char>, int), SpecAttrError> {
    if pos >= s.len() {
        Err(SpecAttrError::UnexpectedEnd)
    } else if !spec_attr_key_char(s[pos]) {
        Err(SpecAttrError::UnexpectedChar { actual: s[pos] })
    } else {
        Ok((s.subrange(pos, run_end(s, pos, key_pred())), run_end(s, pos, key_pred())))
    }
}

/// A single expected character at `pos`, with the cursor after it.
pub open spec fn spec_char_token(s: Seq<char>, pos: int, c: char) -> Result<int, SpecAttrError> {
    if pos >= s.len() {
        Err(SpecAttrError::UnexpectedEnd)
    } else if s[pos] != c {
        Err(SpecAttrError::UnexpectedChar { actual: s[pos] })
    } else {
        Ok(pos + 1)
    }
}

/// A decimal integer at `pos`: a non-empty digit run whose value fits in a
/// `u64`, with the cursor after it.
pub open spec fn spec_decimal_integer(s: Seq<char>, pos: int) -> Result<
    (u64, int),
    SpecAttrError,
> {
    if pos >= s.len() {
        Err(SpecAttrError::UnexpectedEnd)
    } else if !is_digit(s[pos]) {
        Err(SpecAttrError::UnexpectedChar { actual: s[pos] })
    } else {
        let e = run_end(s, pos, digit_pred());
        if dec_val(s.subrange(pos, e)) > u64::MAX {
            Err(SpecAttrError::InvalidDecimalInteger)
        } else {
            Ok((dec_val(s.subrange(pos, e)) as u64, e))
        }
    }
}

/// A quoted string at `pos`: a double quote, a run free of quotes and line
/// breaks, and a closing double quote, with the cursor after it.
pub open spec fn spec_quoted_string(s: Seq<char>, pos: int) -> Result<
    (Seq<char>, int),
    SpecAttrError,
> {
    if pos >= s.len() {
        Err(SpecAttrError::UnexpectedEnd)
    } else if s[pos] != '"' {
        Err(SpecAttrError::UnexpectedChar { actual: s[pos] })
    } else {
        let e = run_end(s, pos + 1, qstr_pred());
        if e >= s.len() {
            Err(SpecAttrError::UnexpectedEnd)
        } else if s[e] != '"' {
            Err(SpecAttrError::UnexpectedChar { actual: s[e] })
        } else {
            Ok((s.subrange(pos + 1, e), e + 1))
        }
    }
}

/// An enumerated string at `pos`: a non-empty run free of commas, quotes and
/// white space, with the cursor after it.
pub open spec fn spec_enumerated_string(s: Seq<char>, pos: int) -> Result<
    (Seq<char>, int),
    SpecAttrError,
> {
    if pos >= s.len() {
        Err(SpecAttrError::UnexpectedEnd)
    } else if !spec_enum_char(s[pos]) {
        Err(SpecAttrError::UnexpectedChar { actual: s[pos] })
    } else {
        Ok((s.subrange(pos, run_end(s, pos, enum_pred())), run_end(s, pos, enum_pred())))
    }
}

/// A decimal floating point at `pos`: a run of digits and points that reads
/// as a decimal numeral whose whole part fits, with the cursor after it.
pub open spec fn spec_decimal_floating_point(s: Seq<char>, pos: int) -> Result<
    (Decimal, int),
    SpecAttrError,
> {
    if pos >= s.len() {
        Err(SpecAttrError::UnexpectedEnd)
    } else if !is_digit(s[pos]) {
        Err(SpecAttrError::UnexpectedChar { actual: s[pos] })
    } else {
        let e = run_end(s, pos, digit_dot_pred());
        let t = s.subrange(pos, e);
        if valid_decimal(t) && decimal_fits(t) {
            Ok((decimal_of(t), e))
        } else {
            Err(SpecAttrError::InvalidDecimalFloatingPoint)
        }
    }
}

/// A decimal resolution at `pos`: an integer width, an `x`, and an integer
/// height, with the cursor after them.
pub open spec fn spec_decimal_resolution(s: Seq<char>, pos: int) -> Result<
    ((u64, u64), int),
    SpecAttrError,
> {
    match spec_decimal_integer(s, pos) {
        Err(e) => Err(e),
        Ok((w, p1)) => match spec_char_token(s, p1, 'x') {
            Err(e) => Err(e),
            Ok(p2) => match spec_decimal_integer(s, p2) {
                Err(e) => Err(e),
                Ok((h, p3)) => Ok(((w, h), p3)),
            },
        },
    }
}

/// A cursor over one attribute list, reading `name=value` pairs.
#[derive(Debug)]
pub struct AttributeListParser<'a> {
    /// The text of the attribute list.
    pub input: &'a str,
    /// The cursor, as a character index into `input`.
    pub pos: usize,
}

impl<'a> AttributeListParser<'a> {
    /// The cursor stays inside the text.
    pub open spec fn wf(&self) -> bool {
        self.pos <= self.input@.len()
    }

    /// A parser at the start of `input`.
    pub fn new(input: &'a str) -> (r: Self)
        ensures
            r.input@ == input@,
            r.pos == 0,
            r.wf(),
    {
        AttributeListParser { input, pos: 0 }
    }

    /// Parse the name in a name=value pair
    pub fn parse_name(&mut self) -> (r: Result<String, AttributeListParseError>)
        requires
            old(self).wf(),
        ensures
            final(self).wf(),
            final(self).input == old(self).input,
            match r {
                Ok(name) => spec_name(old(self).input@, old(self).pos as int) matches Ok(p)
                    && p.0 == name@ && p.1 == final(self).pos,
                Err(e) => spec_name(old(self).input@, old(self).pos as int) matches Err(se) && e@
                    == se && final(self).pos == old(self).pos,
            },
    {
        let n = str_len(self.input);
        if self.pos >= n {
            return Err(AttributeListParseError::UnexpectedEnd);
        }
        let c0 = char_at(self.input, self.pos);
        if !is_valid_attribute_key_char(c0) {
            return Err(
                AttributeListParseError::UnexpectedChar {
                    expected: "an attribute name character",
                    actual: c0,
                },
            );
        }
        let end = scan_key_run(self.input, self.pos);
        proof {
            lemma_run_end(self.input@, self.pos as int, key_pred());
        }
        let name = substring(self.input, self.pos, end);
        self.pos = end;
        Ok(name)
    }

    /// Expects a `=` at the cursor.
    pub fn parse_equals(&mut self) -> (r: Result<(), AttributeListParseError>)
        requires
            old(self).wf(),
        ensures
            final(self).wf(),
            final(self).input == old(self).input,
            match r {
                Ok(_) => spec_char_token(old(self).input@, old(self).pos as int, '=') matches Ok(p)
                    && p == final(self).pos,
                Err(e) => spec_char_token(old(self).input@, old(self).pos as int, '=')
                    matches Err(se) && e@ == se && final(self).pos == old(self).pos,
            },
    {
        self.expect_char('=', "'='")
    }

    /// Expects a `,` at the cursor.
    pub fn parse_comma(&mut self) -> (r: Result<(), AttributeListParseError>)
        requires
            old(self).wf(),
        ensures
            final(self).wf(),
            final(self).input == old(self).input,
            match r {
                Ok(_) => spec_char_token(old(self).input@, old(self).pos as int, ',') matches Ok(p)
                    && p == final(self).pos,
                Err(e) => spec_char_token(old(self).input@, old(self).pos as int, ',')
                    matches Err(se) && e@ == se && final(self).pos == old(self).pos,
            },
    {
        self.expect_char(',', "','")
    }

    /// Expects a `"` at the cursor.
    pub fn parse_double_quote(&mut self) -> (r: Result<(), AttributeListParseError>)
        requires
            old(self).wf(),
        ensures
            final(self).wf(),
            final(self).input == old(self).input,
            match r {
                Ok(_) => spec_char_token(old(self).input@, old(self).pos as int, '"') matches Ok(p)
                    && p == final(self).pos,
                Err(e) => spec_char_token(old(self).input@, old(self).pos as int, '"')
                    matches Err(se) && e@ == se && final(self).pos == old(self).pos,
            },
    {
        self.expect_char('"', "'\"'")
    }

    /// Expects an `x` at the cursor.
    pub fn parse_x(&mut self) -> (r: Result<(), AttributeListParseError>)
        requires
            old(self).wf(),
        ensures
            final(self).wf(),
            final(self).input == old(self).input,
            match r {
                Ok(_) => spec_char_token(old(self).input@, old(self).pos as int, 'x') matches Ok(p)
                    && p == final(self).pos,
                Err(e) => spec_char_token(old(self).input@, old(self).pos as int, 'x')
                    matches Err(se) && e@ == se && final(self).pos == old(self).pos,
            },
    {
        self.expect_char('x', "'x'")
    }

    /// Expects exactly `c` at the cursor.
    fn expect_char(&mut self, c: char, expected: &'static str) -> (r: Result<
        (),
        AttributeListParseError,
    >)
        requires
            old(self).wf(),
        ensures
            final(self).wf(),
            final(self).input == old(self).input,
            match r {
                Ok(_) => spec_char_token(old(self).input@, old(self).pos as int, c) matches Ok(p)
                    && p == final(self).pos,
                Err(e) => spec_char_token(old(self).input@, old(self).pos as int, c)
                    matches Err(se) && e@ == se && final(self).pos == old(self).pos,
            },
    {
        let n = str_len(self.input);
        if self.pos >= n {
            return Err(AttributeListParseError::UnexpectedEnd);
        }
        let c0 = char_at(self.input, self.pos);
        if c0 != c {
            return Err(AttributeListParseError::UnexpectedChar { expected, actual: c0 });
        }
        self.pos = self.pos + 1;
        Ok(())
    }

    /// Parses a decimal integer at the cursor.
    pub fn parse_decimal_integer(&mut self) -> (r: Result<u64, AttributeListParseError>)
        requires
            old(self).wf(),
        ensures
            final(self).wf(),
            final(self).input == old(self).input,
            match r {
                Ok(v) => spec_decimal_integer(old(self).input@, old(self).pos as int) matches Ok(p)
                    && p.0 == v && p.1 == final(self).pos,
                Err(e) => spec_decimal_integer(old(self).input@, old(self).pos as int)
                    matches Err(se) && e@ == se && final(self).pos == old(self).pos,
            },
    {
        let n = str_len(self.input);
        if self.pos >= n {
            return Err(AttributeListParseError::UnexpectedEnd);
        }
        let c0 = char_at(self.input, self.pos);
        if !(c0 >= '0' && c0 <= '9') {
            return Err(AttributeListParseError::UnexpectedChar { expected: "a digit", actual: c0 });
        }
        let end = scan_digit_run(self.input, self.pos);
        proof {
            lemma_run_end(self.input@, self.pos as int, digit_pred());
        }
        let r = parse_u64_digits(self.input, self.pos, end);
        match r {
            Some(v) => {
                self.pos = end;
                Ok(v)
            },
            None => Err(AttributeListParseError::InvalidDecimalInteger),
        }
    }

    /// Parses a quoted string at the cursor; the quotes are not part of the
    /// result.
    pub fn parse_quoted_string(&mut self) -> (r: Result<String, AttributeListParseError>)
        requires
            old(self).wf(),
        ensures
            final(self).wf(),
            final(self).input == old(self).input,
            match r {
                Ok(v) => spec_quoted_string(old(self).input@, old(self).pos as int) matches Ok(p)
                    && p.0 == v@ && p.1 == final(self).pos,
                Err(e) => spec_quoted_string(old(self).input@, old(self).pos as int)
                    matches Err(se) && e@ == se && final(self).pos as int == (
                    // Before the opening quote nothing is consumed; an
                    // unterminated string leaves the cursor at the end of
                    // its content run.
                    if old(self).pos >= old(self).input@.len() || old(self).input@[old(
                        self,
                    ).pos as int] != '"' {
                        old(self).pos as int
                    } else {
                        run_end(old(self).input@, old(self).pos + 1, qstr_pred())
                    }),
            },
    {
        let n = str_len(self.input);
        if self.pos >= n {
            return Err(AttributeListParseError::UnexpectedEnd);
        }
        let c0 = char_at(self.input, self.pos);
        if c0 != '"' {
            return Err(AttributeListParseError::UnexpectedChar { expected: "a '\"'", actual: c0 });
        }
        let start = self.pos;
        let end = scan_qstr_run(self.input, self.pos + 1);
        proof {
            lemma_run_end(self.input@, self.pos as int + 1, qstr_pred());
        }
        let content = substring(self.input, start + 1, end);
        self.pos = end;
        match self.parse_double_quote() {
            Ok(()) => Ok(content),
            Err(e) => Err(e),
        }
    }

    /// Parses a decimal resolution, `<width>x<height>`, at the cursor.
    pub fn parse_decimal_resolution(&mut self) -> (r: Result<(u64, u64), AttributeListParseError>)
        requires
            old(self).wf(),
        ensures
            final(self).wf(),
            final(self).input == old(self).input,
            match r {
                Ok(v) => spec_decimal_resolution(old(self).input@, old(self).pos as int)
                    matches Ok(p) && p.0 == v && p.1 == final(self).pos,
                Err(e) => spec_decimal_resolution(old(self).input@, old(self).pos as int)
                    matches Err(se) && e@ == se,
            },
    {
        let w = match self.parse_decimal_integer() {
            Ok(w) => w,
            Err(e) => {
                return Err(e);
            },
        };
        match self.parse_x() {
            Ok(()) => {},
            Err(e) => {
                return Err(e);
            },
        }
        let h = match self.parse_decimal_integer() {
            Ok(h) => h,
            Err(e) => {
                return Err(e);
            },
        };
        Ok((w, h))
    }

    /// Parses a decimal floating point at the cursor.
    pub fn parse_decimal_floating_point(&mut self) -> (r: Result<
        Decimal,
        AttributeListParseError,
    >)
        requires
            old(self).wf(),
        ensures
            final(self).wf(),
            final(self).input == old(self).input,
            match r {
                Ok(v) => spec_decimal_floating_point(old(self).input@, old(self).pos as int)
                    matches Ok(p) && p.0 == v && v.wf() && p.1 == final(self).pos,
                Err(e) => spec_decimal_floating_point(old(self).input@, old(self).pos as int)
                    matches Err(se) && e@ == se && final(self).pos == old(self).pos,
            },
    {
        let n = str_len(self.input);
        if self.pos >= n {
            return Err(AttributeListParseError::UnexpectedEnd);
        }
        let c0 = char_at(self.input, self.pos);
        if !(c0 >= '0' && c0 <= '9') {
            return Err(AttributeListParseError::UnexpectedChar { expected: "a digit", actual: c0 });
        }
        let end = scan_digit_dot_run(self.input, self.pos);
        proof {
            lemma_run_end(self.input@, self.pos as int, digit_dot_pred());
        }
        match parse_decimal(self.input, self.pos, end) {
            Some(v) => {
                self.pos = end;
                Ok(v)
            },
            None => Err(AttributeListParseError::InvalidDecimalFloatingPoint),
        }
    }

    /// Parses an enumerated string at the cursor.
    pub fn parse_enumerated_string(&mut self) -> (r: Result<String, AttributeListParseError>)
        requires
            old(self).wf(),
        ensures
            final(self).wf(),
            final(self).input == old(self).input,
            match r {
                Ok(v) => spec_enumerated_string(old(self).input@, old(self).pos as int)
                    matches Ok(p) && p.0 == v@ && p.1 == final(self).pos,
                Err(e) => spec_enumerated_string(old(self).input@, old(self).pos as int)
                    matches Err(se) && e@ == se && final(self).pos == old(self).pos,
            },
    {
        let n = str_len(self.input);
        if self.pos >= n {
            return Err(AttributeListParseError::UnexpectedEnd);
        }
        let c0 = char_at(self.input, self.pos);
        if !is_valid_enumerated_string_char(c0) {
            return Err(
                AttributeListParseError::UnexpectedChar {
                    expected: "a character that is not a comma, double-quote, or whitespace",
                    actual: c0,
                },
            );
        }
        let end = scan_enum_run(self.input, self.pos);
        proof {
            lemma_run_end(self.input@, self.pos as int, enum_pred());
        }
        let value = substring(self.input, self.pos, end);
        self.pos = end;
        Ok(value)
    }
}

/// The end of the attribute-name run starting at `from`.
fn scan_key_run(s: &str, from: usize) -> (end: usize)
    requires
        from <= s@.len(),
    ensures
        end == run_end(s@, from as int, key_pred()),
        from <= end <= s@.len(),
{
    let n = str_len(s);
    let mut i = from;
    while i < n && is_valid_attribute_key_char(char_at(s, i))
        invariant
            n == s@.len(),
            from <= i <= n,
            forall|j: int| from <= j < i ==> spec_attr_key_char(#[trigger] s@[j]),
        decreases n - i,
    {
        i += 1;
    }
    proof {
        lemma_run_end_found(s@, from as int, key_pred(), i as int);
    }
    i
}

/// The end of the digit run starting at `from`.
fn scan_digit_run(s: &str, from: usize) -> (end: usize)
    requires
        from <= s@.len(),
    ensures
        end == run_end(s@, from as int, digit_pred()),
        from <= end <= s@.len(),
        all_digits(s@.subrange(from as int, end as int)),
{
    let n = str_len(s);
    let mut i = from;
    while i < n && is_digit_char(char_at(s, i))
        invariant
            n == s@.len(),
            from <= i <= n,
            forall|j: int| from <= j < i ==> is_digit(#[trigger] s@[j]),
        decreases n - i,
    {
        i += 1;
    }
    proof {
        lemma_run_end_found(s@, from as int, digit_pred(), i as int);
        assert forall|j: int| 0 <= j < i - from implies is_digit(
            #[trigger] s@.subrange(from as int, i as int)[j],
        ) by {
            assert(s@.subrange(from as int, i as int)[j] == s@[from + j]);
        }
    }
    i
}

/// The end of the digit-or-point run starting at `from`.
fn scan_digit_dot_run(s: &str, from: usize) -> (end: usize)
    requires
        from <= s@.len(),
    ensures
        end == run_end(s@, from as int, digit_dot_pred()),
        from <= end <= s@.len(),
{
    let n = str_len(s);
    let mut i = from;
    while i < n && is_digit_dot_char(char_at(s, i))
        invariant
            n == s@.len(),
            from <= i <= n,
            forall|j: int| from <= j < i ==> spec_digit_dot_char(#[trigger] s@[j]),
        decreases n - i,
    {
        i += 1;
    }
    proof {
        lemma_run_end_found(s@, from as int, digit_dot_pred(), i as int);
    }
    i
}

/// The end of the quoted-string content run starting at `from`.
fn scan_qstr_run(s: &str, from: usize) -> (end: usize)
    requires
        from <= s@.len(),
    ensures
        end == run_end(s@, from as int, qstr_pred()),
        from <= end <= s@.len(),
{
    let n = str_len(s);
    let mut i = from;
    while i < n && is_qstr_char(char_at(s, i))
        invariant
            n == s@.len(),
            from <= i <= n,
            forall|j: int| from <= j < i ==> spec_qstr_char(#[trigger] s@[j]),
        decreases n - i,
    {
        i += 1;
    }
    proof {
        lemma_run_end_found(s@, from as int, qstr_pred(), i as int);
    }
    i
}

/// The end of the enumerated-string run starting at `from`.
fn scan_enum_run(s: &str, from: usize) -> (end: usize)
    requires
        from <= s@.len(),
    ensures
        end == run_end(s@, from as int, enum_pred()),
        from <= end <= s@.len(),
{
    let n = str_len(s);
    let mut i = from;
    while i < n && is_valid_enumerated_string_char(char_at(s, i))
        invariant
            n == s@.len(),
            from <= i <= n,
            forall|j: int| from <= j < i ==> spec_enum_char(#[trigger] s@[j]),
        decreases n - i,
    {
        i += 1;
    }
    proof {
        lemma_run_end_found(s@, from as int, enum_pred(), i as int);
    }
    i
}


/// A tag error at the view level: what the contracts speak of.
pub enum SpecTagError {
    /// The tag was missing a colon
    MissingColon,
    /// The tag was missing a comma
    MissingComma,
    /// Invalid integer
    ParseInt,
    /// Invalid float
    ParseFloat,
    /// The tag is unknown
    Unknown { line: Seq<char> },
    /// An attribute was duplicated
    DuplicateAttribute { name: Seq<char> },
    /// An unknown attribute was supplied
    UnknownAttribute { name: Seq<char> },
    /// Missing an attribute
    MissingAttribute { name: Seq<char> },
    /// Failed to parse an attribute list
    AttributeList { error: SpecAttrError },
    /// Invalid playlist type
    InvalidPlaylistType { text: Seq<char> },
    /// Invalid video range
    InvalidVideoRange { text: Seq<char> },
}

/// An error that may occur while parsing a tag
#[derive(Debug, PartialEq, Eq, Clone)]
pub enum ParseTagError {
    /// The tag was missing a colon
    MissingColon,
    /// The tag was missing a comma
    MissingComma,
    /// Invalid integer: malformed digits, or a value that does not fit
    ParseInt,
    /// Invalid float: a malformed decimal numeral
    ParseFloat,
    /// The tag is unknown
    Unknown {
        /// The unrecognized line
        line: String,
    },
    /// An attribute was duplicated
    DuplicateAttribute {
        /// The name of the duplicated attribute
        name: String,
    },
    /// An unknown attribute was supplied
    UnknownAttribute {
        /// The name of the attribute
        name: String,
    },
    /// Missing an attribute
    MissingAttribute {
        /// The name of the attribute
        name: &'static str,
    },
    /// Failed to parse an attribute list
    AttributeListParse {
        /// The inner error
        error: AttributeListParseError,
    },
    /// Invalid playlist type
    InvalidPlaylistType {
        /// The inner error
        error: ParsePlaylistTypeError,
    },
    /// Invalid video range
    InvalidVideoRange {
        /// The inner error
        error: ParseVideoRangeError,
    },
}

impl View for ParseTagError {
    type V = SpecTagError;

    open spec fn view(&self) -> SpecTagError {
        match self {
            ParseTagError::MissingColon => SpecTagError::MissingColon,
            ParseTagError::MissingComma => SpecTagError::MissingComma,
            ParseTagError::ParseInt => SpecTagError::ParseInt,
            ParseTagError::ParseFloat => SpecTagError::ParseFloat,
            ParseTagError::Unknown { line } => SpecTagError::Unknown { line: line@ },
            ParseTagError::DuplicateAttribute { name } => {
                SpecTagError::DuplicateAttribute { name: name@ }
            },
            ParseTagError::UnknownAttribute { name } => {
                SpecTagError::UnknownAttribute { name: name@ }
            },
            ParseTagError::MissingAttribute { name } => {
                SpecTagError::MissingAttribute { name: name@ }
            },
            ParseTagError::AttributeListParse { error } => {
                SpecTagError::AttributeList { error: error@ }
            },
            ParseTagError::InvalidPlaylistType { error } => {
                SpecTagError::InvalidPlaylistType { text: error.text@ }
            },
            ParseTagError::InvalidVideoRange { error } => {
                SpecTagError::InvalidVideoRange { text: error.text@ }
            },
        }
    }
}

/// A tag at the view level: the fields of `Tag`, with text as character
/// sequences.
pub enum SpecTag {
    /// The EXT-X-TARGETDURATION tag
    TargetDuration { duration: Decimal },
    /// The EXTINF tag
    Inf { duration: Decimal, title: Option<Seq<char>> },
    /// The EXT-X-VERSION tag
    Version { version: u8 },
    /// The EXT-X-MEDIA-SEQUENCE tag
    MediaSequence { number: u64 },
    /// The EXT-X-KEY tag
    Key { method: Seq<char>, uri: Option<Seq<char>> },
    /// The EXT-X-STREAM-INF tag
    StreamInf {
        bandwidth: u64,
        average_bandwidth: Option<u64>,
        codecs: Option<Seq<Seq<char>>>,
        resolution: Option<(u64, u64)>,
        frame_rate: Option<Decimal>,
        video_range: Option<VideoRange>,
        name: Option<Seq<char>>,
    },
    /// The EXT-X-ALLOW-CACHE tag
    AllowCache,
    /// The EXT-X-PLAYLIST-TYPE tag
    PlaylistType { playlist_type: PlaylistType },
    /// The EXT-X-ENDLIST tag
    EndList,
    /// The EXT-X-INDEPENDENT-SEGMENTS tag
    IndependentSegments,
}

/// The view of an optional owned string.
pub open spec fn view_opt_str(o: Option<String>) -> Option<Seq<char>> {
    match o {
        Some(s) => Some(s@),
        None => None,
    }
}

/// The view of an optional list of owned strings.
pub open spec fn view_opt_strs(o: Option<Vec<String>>) -> Option<Seq<Seq<char>>> {
    match o {
        Some(v) => Some(v@.map_values(|x: String| x@)),
        None => None,
    }
}

/// A tag
#[derive(Debug, PartialEq, Eq, Clone)]
pub enum Tag {
    /// The EXT-X-TARGETDURATION tag
    ExtXTargetDuration {
        /// The max length of each media segment
        duration: Decimal,
    },
    /// The EXTINF tag
    ExtInf {
        /// The duration of the next segment, in seconds
        duration: Decimal,
        /// The title of the next media segment
        title: Option<String>,
    },
    /// The EXT-X-VERSION tag
    ExtXVersion {
        /// The version
        version: u8,
    },
    /// The EXT-X-MEDIA-SEQUENCE tag
    ExtXMediaSequence {
        /// The sequence number
        number: u64,
    },
    /// The EXT-X-KEY tag
    ExtXKey {
        /// The encryption method
        method: String,
        /// The key uri
        uri: Option<String>,
    },
    /// The EXT-X-STREAM-INF tag
    ExtXStreamInf {
        /// The stream bandwidth
        bandwidth: u64,
        /// The average bandwidth
        average_bandwidth: Option<u64>,
        /// The codecs
        codecs: Option<Vec<String>>,
        /// The resolution
        resolution: Option<(u64, u64)>,
        /// The frame rate
        frame_rate: Option<Decimal>,
        /// The video range
        video_range: Option<VideoRange>,
        /// The name
        name: Option<String>,
    },
    /// The EXT-X-ALLOW-CACHE tag
    ExtXAllowCache,
    /// The EXT-X-PLAYLIST-TYPE tag
    ExtXPlaylistType {
        /// The playlist type
        playlist_type: PlaylistType,
    },
    /// The EXT-X-ENDLIST tag
    ExtXEndList,
    /// The EXT-X-INDEPENDENT-SEGMENTS tag
    ExtXIndependentSegments,
}

impl View for Tag {
    type V = SpecTag;

    open spec fn view(&self) -> SpecTag {
        match self {
            Tag::ExtXTargetDuration { duration } => {
                SpecTag::TargetDuration { duration: *duration }
            },
            Tag::ExtInf { duration, title } => {
                SpecTag::Inf { duration: *duration, title: view_opt_str(*title) }
            },
            Tag::ExtXVersion { version } => SpecTag::Version { version: *version },
            Tag::ExtXMediaSequence { number } => SpecTag::MediaSequence { number: *number },
            Tag::ExtXKey { method, uri } => {
                SpecTag::Key { method: method@, uri: view_opt_str(*uri) }
            },
            Tag::ExtXStreamInf {
                bandwidth,
                average_bandwidth,
                codecs,
                resolution,
                frame_rate,
                video_range,
                name,
            } => {
                SpecTag::StreamInf {
                    bandwidth: *bandwidth,
                    average_bandwidth: *average_bandwidth,
                    codecs: view_opt_strs(*codecs),
                    resolution: *resolution,
                    frame_rate: *frame_rate,
                    video_range: *video_range,
                    name: view_opt_str(*name),
                }
            },
            Tag::ExtXAllowCache => SpecTag::AllowCache,
            Tag::ExtXPlaylistType { playlist_type } => {
                SpecTag::PlaylistType { playlist_type: *playlist_type }
            },
            Tag::ExtXEndList => SpecTag::EndList,
            Tag::ExtXIndependentSegments => SpecTag::IndependentSegments,
        }
    }
}

/// `pos`, capped at the length of `s`.
pub open spec fn cap_pos(s: Seq<char>, pos: int) -> int {
    if pos > s.len() {
        s.len() as int
    } else {
        pos
    }
}

/// The accumulated EXT-X-KEY attributes, at the view level.
pub struct SpecKeyAcc {
    pub method: Option<Seq<char>>,
    pub uri: Option<Seq<char>>,
}

/// The accumulated EXT-X-STREAM-INF attributes, at the view level.
pub struct SpecStreamInfAcc {
    pub bandwidth: Option<u64>,
    pub average_bandwidth: Option<u64>,
    pub codecs: Option<Seq<Seq<char>>>,
    pub program_id: Option<u64>,
    pub resolution: Option<(u64, u64)>,
    pub frame_rate: Option<Decimal>,
    pub video_range: Option<VideoRange>,
    pub name: Option<Seq<char>>,
}

/// The EXT-X-KEY attribute list read from `pos`, folded over `acc`: each
/// `name=value` pair checked against the known names, duplicates refused,
/// pairs separated by commas until the text ends.
pub open spec fn spec_key_attrs(s: Seq<char>, pos: int, acc: SpecKeyAcc) -> Result<
    SpecKeyAcc,
    SpecTagError,
>
    decreases s.len() - pos,
{
    match spec_name(s, pos) {
        Err(e) => Err(SpecTagError::AttributeList { error: e }),
        Ok((name, p1)) => match spec_char_token(s, p1, '=') {
            Err(e) => Err(SpecTagError::AttributeList { error: e }),
            Ok(p2) => {
                if name == "METHOD"@ {
                    match spec_enumerated_string(s, p2) {
                        Err(e) => Err(SpecTagError::AttributeList { error: e }),
                        Ok((v, p3)) => {
                            if acc.method is Some {
                                Err(SpecTagError::DuplicateAttribute { name })
                            } else {
                                spec_attrs_continue_key(
                                    s,
                                    cap_pos(s, p3),
                                    SpecKeyAcc { method: Some(v), ..acc },
                                )
                            }
                        },
                    }
                } else if name == "URI"@ {
                    match spec_quoted_string(s, p2) {
                        Err(e) => Err(SpecTagError::AttributeList { error: e }),
                        Ok((v, p3)) => {
                            if acc.uri is Some {
                                Err(SpecTagError::DuplicateAttribute { name })
                            } else {
                                spec_attrs_continue_key(s, cap_pos(s, p3), SpecKeyAcc { uri: Some(v), ..acc })
                            }
                        },
                    }
                } else {
                    Err(SpecTagError::UnknownAttribute { name })
                }
            },
        },
    }
}

/// After one EXT-X-KEY pair: the end of the text finishes the list, a comma
/// continues it, anything else is an error.
pub open spec fn spec_attrs_continue_key(s: Seq<char>, pos: int, acc: SpecKeyAcc) -> Result<
    SpecKeyAcc,
    SpecTagError,
>
    decreases s.len() - pos,
{
    if pos >= s.len() {
        Ok(acc)
    } else if s[pos] != ',' {
        Err(
            SpecTagError::AttributeList {
                error: SpecAttrError::UnexpectedChar { actual: s[pos] },
            },
        )
    } else {
        spec_key_attrs(s, pos + 1, acc)
    }
}

/// The EXT-X-STREAM-INF attribute list read from `pos`, folded over `acc`.
pub open spec fn spec_stream_inf_attrs(s: Seq<char>, pos: int, acc: SpecStreamInfAcc) -> Result<
    SpecStreamInfAcc,
    SpecTagError,
>
    decreases s.len() - pos,
{
    match spec_name(s, pos) {
        Err(e) => Err(SpecTagError::AttributeList { error: e }),
        Ok((name, p1)) => match spec_char_token(s, p1, '=') {
            Err(e) => Err(SpecTagError::AttributeList { error: e }),
            Ok(p2) => {
                if name == "BANDWIDTH"@ {
                    match spec_decimal_integer(s, p2) {
                        Err(e) => Err(SpecTagError::AttributeList { error: e }),
                        Ok((v, p3)) => {
                            if acc.bandwidth is Some {
                                Err(SpecTagError::DuplicateAttribute { name })
                            } else {
                                spec_attrs_continue_stream_inf(
                                    s,
                                    cap_pos(s, p3),
                                    SpecStreamInfAcc { bandwidth: Some(v), ..acc },
                                )
                            }
                        },
                    }
                } else if name == "AVERAGE-BANDWIDTH"@ {
                    match spec_decimal_integer(s, p2) {
                        Err(e) => Err(SpecTagError::AttributeList { error: e }),
                        Ok((v, p3)) => {
                            if acc.average_bandwidth is Some {
                                Err(SpecTagError::DuplicateAttribute { name })
                            } else {
                                spec_attrs_continue_stream_inf(
                                    s,
                                    cap_pos(s, p3),
                                    SpecStreamInfAcc { average_bandwidth: Some(v), ..acc },
                                )
                            }
                        },
                    }
                } else if name == "CODECS"@ {
                    match spec_quoted_string(s, p2) {
                        Err(e) => Err(SpecTagError::AttributeList { error: e }),
                        Ok((v, p3)) => {
                            if acc.codecs is Some {
                                Err(SpecTagError::DuplicateAttribute { name })
                            } else {
                                spec_attrs_continue_stream_inf(
                                    s,
                                    cap_pos(s, p3),
                                    SpecStreamInfAcc {
                                        codecs: Some(crate::strutil::split_char(v, ',')),
                                        ..acc
                                    },
                                )
                            }
                        },
                    }
                } else if name == "PROGRAM-ID"@ {
                    // Removed from the standard: the value is read but kept
                    // out of the tag; a repeat is still a hard error.
                    match spec_decimal_integer(s, p2) {
                        Err(e) => Err(SpecTagError::AttributeList { error: e }),
                        Ok((v, p3)) => {
                            if acc.program_id is Some {
                                Err(SpecTagError::DuplicateAttribute { name })
                            } else {
                                spec_attrs_continue_stream_inf(
                                    s,
                                    cap_pos(s, p3),
                                    SpecStreamInfAcc { program_id: Some(v), ..acc },
                                )
                            }
                        },
                    }
                } else if name == "RESOLUTION"@ {
                    match spec_decimal_resolution(s, p2) {
                        Err(e) => Err(SpecTagError::AttributeList { error: e }),
                        Ok((v, p3)) => {
                            if acc.resolution is Some {
                                Err(SpecTagError::DuplicateAttribute { name })
                            } else {
                                spec_attrs_continue_stream_inf(
                                    s,
                                    cap_pos(s, p3),
                                    SpecStreamInfAcc { resolution: Some(v), ..acc },
                                )
                            }
                        },
                    }
                } else if name == "FRAME-RATE"@ {
                    match spec_decimal_floating_point(s, p2) {
                        Err(e) => Err(SpecTagError::AttributeList { error: e }),
                        Ok((v, p3)) => {
                            if acc.frame_rate is Some {
                                Err(SpecTagError::DuplicateAttribute { name })
                            } else {
                                spec_attrs_continue_stream_inf(
                                    s,
                                    cap_pos(s, p3),
                                    SpecStreamInfAcc { frame_rate: Some(v), ..acc },
                                )
                            }
                        },
                    }
                } else if name == "VIDEO-RANGE"@ {
                    match spec_enumerated_string(s, p2) {
                        Err(e) => Err(SpecTagError::AttributeList { error: e }),
                        Ok((v, p3)) => match video_range_of(v) {
                            None => Err(SpecTagError::InvalidVideoRange { text: v }),
                            Some(vr) => {
                                if acc.video_range is Some {
                                    Err(SpecTagError::DuplicateAttribute { name })
                                } else {
                                    spec_attrs_continue_stream_inf(
                                        s,
                                        cap_pos(s, p3),
                                        SpecStreamInfAcc { video_range: Some(vr), ..acc },
                                    )
                                }
                            },
                        },
                    }
                } else if name == "NAME"@ {
                    match spec_quoted_string(s, p2) {
                        Err(e) => Err(SpecTagError::AttributeList { error: e }),
                        Ok((v, p3)) => {
                            if acc.name is Some {
                                Err(SpecTagError::DuplicateAttribute { name })
                            } else {
                                spec_attrs_continue_stream_inf(
                                    s,
                                    cap_pos(s, p3),
                                    SpecStreamInfAcc { name: Some(v), ..acc },
                                )
                            }
                        },
                    }
                } else {
                    Err(SpecTagError::UnknownAttribute { name })
                }
            },
        },
    }
}

/// After one EXT-X-STREAM-INF pair: the end of the text finishes the list, a
/// comma continues it, anything else is an error.
pub open spec fn spec_attrs_continue_stream_inf(
    s: Seq<char>,
    pos: int,
    acc: SpecStreamInfAcc,
) -> Result<SpecStreamInfAcc, SpecTagError>
    decreases s.len() - pos,
{
    if pos >= s.len() {
        Ok(acc)
    } else if s[pos] != ',' {
        Err(
            SpecTagError::AttributeList {
                error: SpecAttrError::UnexpectedChar { actual: s[pos] },
            },
        )
    } else {
        spec_stream_inf_attrs(s, pos + 1, acc)
    }
}

/// Whether the parse outcome `r` is the view-level outcome `s`.
pub open spec fn tag_result_matches(
    r: Result<Tag, ParseTagError>,
    s: Result<SpecTag, SpecTagError>,
) -> bool {
    match r {
        Ok(t) => s matches Ok(st) && t@ == st,
        Err(e) => s matches Err(se) && e@ == se,
    }
}

/// The accumulated EXT-X-KEY attributes.
struct KeyAcc {
    method: Option<String>,
    uri: Option<String>,
}

impl KeyAcc {
    spec fn view(&self) -> SpecKeyAcc {
        SpecKeyAcc { method: view_opt_str(self.method), uri: view_opt_str(self.uri) }
    }
}

/// The accumulated EXT-X-STREAM-INF attributes.
struct StreamInfAcc {
    bandwidth: Option<u64>,
    average_bandwidth: Option<u64>,
    codecs: Option<Vec<String>>,
    program_id: Option<u64>,
    resolution: Option<(u64, u64)>,
    frame_rate: Option<Decimal>,
    video_range: Option<VideoRange>,
    name: Option<String>,
}

impl StreamInfAcc {
    spec fn view(&self) -> SpecStreamInfAcc {
        SpecStreamInfAcc {
            bandwidth: self.bandwidth,
            average_bandwidth: self.average_bandwidth,
            codecs: view_opt_strs(self.codecs),
            program_id: self.program_id,
            resolution: self.resolution,
            frame_rate: self.frame_rate,
            video_range: self.video_range,
            name: view_opt_str(self.name),
        }
    }
}

/// Reads EXT-X-KEY `name=value` pairs from the cursor until the text ends.
fn key_attrs(p: &mut AttributeListParser<'_>, acc: KeyAcc) -> (r: Result<KeyAcc, ParseTagError>)
    requires
        old(p).wf(),
    ensures
        match r {
            Ok(a) => spec_key_attrs(old(p).input@, old(p).pos as int, acc.view()) == Ok::<
                SpecKeyAcc,
                SpecTagError,
            >(a.view()),
            Err(e) => spec_key_attrs(old(p).input@, old(p).pos as int, acc.view()) matches Err(se)
                && e@ == se,
        },
    decreases p.input@.len() - p.pos,
{
    let mut acc = acc;
    let name = match p.parse_name() {
        Ok(n) => n,
        Err(e) => {
            return Err(ParseTagError::AttributeListParse { error: e });
        },
    };
    match p.parse_equals() {
        Ok(()) => (),
        Err(e) => {
            return Err(ParseTagError::AttributeListParse { error: e });
        },
    }
    if str_eq(name.as_str(), "METHOD") {
        let v = match p.parse_enumerated_string() {
            Ok(v) => v,
            Err(e) => {
                return Err(ParseTagError::AttributeListParse { error: e });
            },
        };
        if acc.method.is_some() {
            return Err(ParseTagError::DuplicateAttribute { name });
        }
        acc.method = Some(v);
    } else if str_eq(name.as_str(), "URI") {
        let v = match p.parse_quoted_string() {
            Ok(v) => v,
            Err(e) => {
                return Err(ParseTagError::AttributeListParse { error: e });
            },
        };
        if acc.uri.is_some() {
            return Err(ParseTagError::DuplicateAttribute { name });
        }
        acc.uri = Some(v);
    } else {
        return Err(ParseTagError::UnknownAttribute { name });
    }
    proof {
        assert(cap_pos(p.input@, p.pos as int) == p.pos as int);
    }
    match p.parse_comma() {
        Ok(()) => key_attrs(p, acc),
        Err(AttributeListParseError::UnexpectedEnd) => Ok(acc),
        Err(e) => Err(ParseTagError::AttributeListParse { error: e }),
    }
}

/// Reads EXT-X-STREAM-INF `name=value` pairs from the cursor until the text
/// ends.
fn stream_inf_attrs(p: &mut AttributeListParser<'_>, acc: StreamInfAcc) -> (r: Result<
    StreamInfAcc,
    ParseTagError,
>)
    requires
        old(p).wf(),
    ensures
        match r {
            Ok(a) => spec_stream_inf_attrs(old(p).input@, old(p).pos as int, acc.view()) == Ok::<
                SpecStreamInfAcc,
                SpecTagError,
            >(a.view()),
            Err(e) => spec_stream_inf_attrs(old(p).input@, old(p).pos as int, acc.view())
                matches Err(se) && e@ == se,
        },
    decreases p.input@.len() - p.pos,
{
    let mut acc = acc;
    let name = match p.parse_name() {
        Ok(n) => n,
        Err(e) => {
            return Err(ParseTagError::AttributeListParse { error: e });
        },
    };
    match p.parse_equals() {
        Ok(()) => (),
        Err(e) => {
            return Err(ParseTagError::AttributeListParse { error: e });
        },
    }
    if str_eq(name.as_str(), "BANDWIDTH") {
        let v = match p.parse_decimal_integer() {
            Ok(v) => v,
            Err(e) => {
                return Err(ParseTagError::AttributeListParse { error: e });
            },
        };
        if acc.bandwidth.is_some() {
            return Err(ParseTagError::DuplicateAttribute { name });
        }
        acc.bandwidth = Some(v);
    } else if str_eq(name.as_str(), "AVERAGE-BANDWIDTH") {
        let v = match p.parse_decimal_integer() {
            Ok(v) => v,
            Err(e) => {
                return Err(ParseTagError::AttributeListParse { error: e });
            },
        };
        if acc.average_bandwidth.is_some() {
            return Err(ParseTagError::DuplicateAttribute { name });
        }
        acc.average_bandwidth = Some(v);
    } else if str_eq(name.as_str(), "CODECS") {
        let v = match p.parse_quoted_string() {
            Ok(v) => v,
            Err(e) => {
                return Err(ParseTagError::AttributeListParse { error: e });
            },
        };
        if acc.codecs.is_some() {
            return Err(ParseTagError::DuplicateAttribute { name });
        }
        acc.codecs = Some(crate::strutil::split_on_char(v.as_str(), ','));
    } else if str_eq(name.as_str(), "PROGRAM-ID") {
        // Removed from the standard: read but kept out of the tag; a
        // repeat is still a hard error.
        let v = match p.parse_decimal_integer() {
            Ok(v) => v,
            Err(e) => {
                return Err(ParseTagError::AttributeListParse { error: e });
            },
        };
        if acc.program_id.is_some() {
            return Err(ParseTagError::DuplicateAttribute { name });
        }
        acc.program_id = Some(v);
    } else if str_eq(name.as_str(), "RESOLUTION") {
        let v = match p.parse_decimal_resolution() {
            Ok(v) => v,
            Err(e) => {
                return Err(ParseTagError::AttributeListParse { error: e });
            },
        };
        if acc.resolution.is_some() {
            return Err(ParseTagError::DuplicateAttribute { name });
        }
        acc.resolution = Some(v);
    } else if str_eq(name.as_str(), "FRAME-RATE") {
        let v = match p.parse_decimal_floating_point() {
            Ok(v) => v,
            Err(e) => {
                return Err(ParseTagError::AttributeListParse { error: e });
            },
        };
        if acc.frame_rate.is_some() {
            return Err(ParseTagError::DuplicateAttribute { name });
        }
        acc.frame_rate = Some(v);
    } else if str_eq(name.as_str(), "VIDEO-RANGE") {
        let v = match p.parse_enumerated_string() {
            Ok(v) => v,
            Err(e) => {
                return Err(ParseTagError::AttributeListParse { error: e });
            },
        };
        let vr = match VideoRange::from_str(v.as_str()) {
            Ok(vr) => vr,
            Err(e) => {
                return Err(ParseTagError::InvalidVideoRange { error: e });
            },
        };
        if acc.video_range.is_some() {
            return Err(ParseTagError::DuplicateAttribute { name });
        }
        acc.video_range = Some(vr);
    } else if str_eq(name.as_str(), "NAME") {
        let v = match p.parse_quoted_string() {
            Ok(v) => v,
            Err(e) => {
                return Err(ParseTagError::AttributeListParse { error: e });
            },
        };
        if acc.name.is_some() {
            return Err(ParseTagError::DuplicateAttribute { name });
        }
        acc.name = Some(v);
    } else {
        return Err(ParseTagError::UnknownAttribute { name });
    }
    proof {
        assert(cap_pos(p.input@, p.pos as int) == p.pos as int);
    }
    match p.parse_comma() {
        Ok(()) => stream_inf_attrs(p, acc),
        Err(AttributeListParseError::UnexpectedEnd) => Ok(acc),
        Err(e) => Err(ParseTagError::AttributeListParse { error: e }),
    }
}

/// The EXT-X-TARGETDURATION tag: a colon, then a whole number of seconds.
pub open spec fn spec_parse_target_duration(line: Seq<char>) -> Result<SpecTag, SpecTagError> {
    let rest = line.skip("EXT-X-TARGETDURATION"@.len() as int);
    if rest.len() == 0 || rest[0] != ':' {
        Err(SpecTagError::MissingColon)
    } else {
        let v = rest.skip(1);
        if v.len() > 0 && all_digits(v) && dec_val(v) <= u64::MAX {
            Ok(
                SpecTag::TargetDuration {
                    duration: Decimal { units: dec_val(v) as u64, millionths: 0 },
                },
            )
        } else {
            Err(SpecTagError::ParseInt)
        }
    }
}

/// The EXTINF tag: a colon, a decimal duration, a comma, and an optional
/// title; an empty title reads as absent.
pub open spec fn spec_parse_extinf(line: Seq<char>) -> Result<SpecTag, SpecTagError> {
    let rest = line.skip("EXTINF"@.len() as int);
    if rest.len() == 0 || rest[0] != ':' {
        Err(SpecTagError::MissingColon)
    } else {
        let v = rest.skip(1);
        let i = crate::strutil::find_char(v, ',');
        if i >= v.len() {
            Err(SpecTagError::MissingComma)
        } else {
            let dt = v.take(i);
            let tt = v.skip(i + 1);
            if valid_decimal(dt) && decimal_fits(dt) {
                Ok(
                    SpecTag::Inf {
                        duration: decimal_of(dt),
                        title: if tt.len() == 0 {
                            None
                        } else {
                            Some(tt)
                        },
                    },
                )
            } else {
                Err(SpecTagError::ParseFloat)
            }
        }
    }
}

/// The EXT-X-VERSION tag: a colon, then a version that fits in a byte.
pub open spec fn spec_parse_version(line: Seq<char>) -> Result<SpecTag, SpecTagError> {
    let rest = line.skip("EXT-X-VERSION"@.len() as int);
    if rest.len() == 0 || rest[0] != ':' {
        Err(SpecTagError::MissingColon)
    } else {
        let v = rest.skip(1);
        if v.len() > 0 && all_digits(v) && dec_val(v) <= u8::MAX {
            Ok(SpecTag::Version { version: dec_val(v) as u8 })
        } else {
            Err(SpecTagError::ParseInt)
        }
    }
}

/// The EXT-X-MEDIA-SEQUENCE tag: a colon, then a sequence number.
pub open spec fn spec_parse_media_sequence(line: Seq<char>) -> Result<SpecTag, SpecTagError> {
    let rest = line.skip("EXT-X-MEDIA-SEQUENCE"@.len() as int);
    if rest.len() == 0 || rest[0] != ':' {
        Err(SpecTagError::MissingColon)
    } else {
        let v = rest.skip(1);
        if v.len() > 0 && all_digits(v) && dec_val(v) <= u64::MAX {
            Ok(SpecTag::MediaSequence { number: dec_val(v) as u64 })
        } else {
            Err(SpecTagError::ParseInt)
        }
    }
}

/// The EXT-X-KEY tag: a colon, then an attribute list that must name a
/// METHOD.
pub open spec fn spec_parse_key(line: Seq<char>) -> Result<SpecTag, SpecTagError> {
    let rest = line.skip("EXT-X-KEY"@.len() as int);
    if rest.len() == 0 || rest[0] != ':' {
        Err(SpecTagError::MissingColon)
    } else {
        let v = rest.skip(1);
        match spec_key_attrs(v, 0, SpecKeyAcc { method: None, uri: None }) {
            Err(e) => Err(e),
            Ok(acc) => match acc.method {
                None => Err(SpecTagError::MissingAttribute { name: "METHOD"@ }),
                Some(m) => Ok(SpecTag::Key { method: m, uri: acc.uri }),
            },
        }
    }
}

/// The empty EXT-X-STREAM-INF attribute accumulator.
pub open spec fn empty_stream_inf_acc() -> SpecStreamInfAcc {
    SpecStreamInfAcc {
        bandwidth: None,
        average_bandwidth: None,
        codecs: None,
        program_id: None,
        resolution: None,
        frame_rate: None,
        video_range: None,
        name: None,
    }
}

/// The EXT-X-STREAM-INF tag: a colon, then an attribute list that must name
/// a BANDWIDTH.
pub open spec fn spec_parse_stream_inf(line: Seq<char>) -> Result<SpecTag, SpecTagError> {
    let rest = line.skip("EXT-X-STREAM-INF"@.len() as int);
    if rest.len() == 0 || rest[0] != ':' {
        Err(SpecTagError::MissingColon)
    } else {
        let v = rest.skip(1);
        match spec_stream_inf_attrs(v, 0, empty_stream_inf_acc()) {
            Err(e) => Err(e),
            Ok(acc) => match acc.bandwidth {
                None => Err(SpecTagError::MissingAttribute { name: "BANDWIDTH"@ }),
                Some(bandwidth) => Ok(
                    SpecTag::StreamInf {
                        bandwidth,
                        average_bandwidth: acc.average_bandwidth,
                        codecs: acc.codecs,
                        resolution: acc.resolution,
                        frame_rate: acc.frame_rate,
                        video_range: acc.video_range,
                        name: acc.name,
                    },
                ),
            },
        }
    }
}

/// The EXT-X-PLAYLIST-TYPE tag: a colon, then `VOD` or `EVENT`.
pub open spec fn spec_parse_playlist_type(line: Seq<char>) -> Result<SpecTag, SpecTagError> {
    let rest = line.skip("EXT-X-PLAYLIST-TYPE"@.len() as int);
    if rest.len() == 0 || rest[0] != ':' {
        Err(SpecTagError::MissingColon)
    } else {
        let v = rest.skip(1);
        match playlist_type_of(v) {
            Some(t) => Ok(SpecTag::PlaylistType { playlist_type: t }),
            None => Err(SpecTagError::InvalidPlaylistType { text: v }),
        }
    }
}

/// One playlist line, already stripped of its leading `#`, read as a tag:
/// the known tag names are tried in order, each with its own body grammar.
pub open spec fn spec_parse_tag(line: Seq<char>) -> Result<SpecTag, SpecTagError> {
    if crate::strutil::starts_with(line, "EXT-X-TARGETDURATION"@) {
        spec_parse_target_duration(line)
    } else if crate::strutil::starts_with(line, "EXTINF"@) {
        spec_parse_extinf(line)
    } else if crate::strutil::starts_with(line, "EXT-X-VERSION"@) {
        spec_parse_version(line)
    } else if crate::strutil::starts_with(line, "EXT-X-MEDIA-SEQUENCE"@) {
        spec_parse_media_sequence(line)
    } else if crate::strutil::starts_with(line, "EXT-X-KEY"@) {
        spec_parse_key(line)
    } else if crate::strutil::starts_with(line, "EXT-X-STREAM-INF"@) {
        spec_parse_stream_inf(line)
    } else if crate::strutil::starts_with(line, "EXT-X-ALLOW-CACHE"@) {
        Ok(SpecTag::AllowCache)
    } else if crate::strutil::starts_with(line, "EXT-X-PLAYLIST-TYPE"@) {
        spec_parse_playlist_type(line)
    } else if crate::strutil::starts_with(line, "EXT-X-ENDLIST"@) {
        Ok(SpecTag::EndList)
    } else if crate::strutil::starts_with(line, "EXT-X-INDEPENDENT-SEGMENTS"@) {
        Ok(SpecTag::IndependentSegments)
    } else {
        Err(SpecTagError::Unknown { line })
    }
}

/// Every well-formed EXTINF line parses back to exactly its parts: for a
/// duration numeral `d` and a title `t`, the line `EXTINF:<d>,<t>` yields
/// the value of `d` and the title `t`, an empty title reading as absent.
pub proof fn lemma_extinf_round_trip(d: Seq<char>, t: Seq<char>)
    requires
        valid_decimal(d),
        decimal_fits(d),
    ensures
        spec_parse_tag("EXTINF:"@ + d + ","@ + t) == Ok::<SpecTag, SpecTagError>(
            SpecTag::Inf {
                duration: decimal_of(d),
                title: if t.len() == 0 {
                    None
                } else {
                    Some(t)
                },
            },
        ),
{
    reveal_strlit("EXTINF");
    reveal_strlit("EXTINF:");
    reveal_strlit("EXT-X-TARGETDURATION");
    let line = "EXTINF:"@ + d + ","@ + t;
    assert(crate::strutil::starts_with(line, "EXTINF"@));
    assert(!crate::strutil::starts_with(line, "EXT-X-TARGETDURATION"@)) by {
        assert("EXT-X-TARGETDURATION"@[3] == '-');
        assert(line[3] == 'I');
    }
    let rest = line.skip("EXTINF"@.len() as int);
    assert(rest[0] == ':');
    let v = rest.skip(1);
    assert(v =~= d + ","@ + t);
    reveal_strlit(",");
    assert forall|j: int| 0 <= j < d.len() implies v[j] != ',' by {
        let dot = crate::strutil::find_char(d, '.');
        crate::strutil::lemma_find_char(d, '.');
        if dot >= d.len() {
            assert(is_digit(d[j]));
        } else if j < dot {
            assert(is_digit(d.take(dot)[j]));
        } else if j == dot {
            assert(d[j] == '.');
        } else {
            assert(is_digit(d.skip(dot + 1)[j - dot - 1]));
        }
    }
    assert(v[d.len() as int] == ',');
    crate::strutil::lemma_find_char_found(v, ',', d.len() as int);
    assert(v.take(d.len() as int) =~= d);
    assert(v.skip(d.len() as int + 1) =~= t);
}

/// Checks for a colon at char index `k`; returns the index after it.
fn expect_colon(line: &str, k: usize) -> (r: Option<usize>)
    requires
        k <= line@.len(),
    ensures
        match r {
            Some(j) => j == k + 1 && k < line@.len() && line@[k as int] == ':' && line@.skip(
                k as int,
            ).len() > 0 && line@.skip(k as int)[0] == ':',
            None => line@.skip(k as int).len() == 0 || line@.skip(k as int)[0] != ':',
        },
{
    let n = str_len(line);
    if k < n && char_at(line, k) == ':' {
        Some(k + 1)
    } else {
        None
    }
}

/// Parses the digit run `line[from..]` as a whole number of at most `max`.
fn parse_bounded_int(line: &str, from: usize, max: u64) -> (r: Option<u64>)
    requires
        from <= line@.len(),
    ensures
        ({
            let v = line@.skip(from as int);
            match r {
                Some(u) => v.len() > 0 && all_digits(v) && dec_val(v) == u && u <= max,
                None => !(v.len() > 0 && all_digits(v) && dec_val(v) <= max),
            }
        }),
{
    let ghost v = line@.skip(from as int);
    let n = str_len(line);
    proof {
        assert(v =~= line@.subrange(from as int, n as int));
    }
    if from == n {
        return None;
    }
    if !crate::decimal::check_all_digits(line, from, n) {
        return None;
    }
    match parse_u64_digits(line, from, n) {
        Some(u) => {
            if u <= max {
                Some(u)
            } else {
                None
            }
        },
        None => None,
    }
}

impl Tag {
    /// Parses one playlist line, already stripped of its leading `#`.
    ///
    /// The result is exactly what the line grammar assigns to the text.
    pub fn parse(line: &str) -> (r: Result<Tag, ParseTagError>)
        ensures
            tag_result_matches(r, spec_parse_tag(line@)),
    {
        if str_starts_with(line, "EXT-X-TARGETDURATION") {
            let k = str_len("EXT-X-TARGETDURATION");
            match expect_colon(line, k) {
                None => Err(ParseTagError::MissingColon),
                Some(j) => {
                    proof {
                        assert(line@.skip(k as int).skip(1) =~= line@.skip(j as int));
                    }
                    match parse_bounded_int(line, j, u64::MAX) {
                        Some(u) => Ok(
                            Tag::ExtXTargetDuration {
                                duration: Decimal { units: u, millionths: 0 },
                            },
                        ),
                        None => Err(ParseTagError::ParseInt),
                    }
                },
            }
        } else if str_starts_with(line, "EXTINF") {
            let k = str_len("EXTINF");
            match expect_colon(line, k) {
                None => Err(ParseTagError::MissingColon),
                Some(j) => {
                    let ghost v = line@.skip(j as int);
                    proof {
                        assert(line@.skip(k as int).skip(1) =~= v);
                    }
                    let n = str_len(line);
                    let c = crate::strutil::str_find_char(line, j, ',');
                    if c >= n {
                        Err(ParseTagError::MissingComma)
                    } else {
                        proof {
                            assert(v.take(c - j) =~= line@.subrange(j as int, c as int));
                        }
                        match parse_decimal(line, j, c) {
                            Some(d) => {
                                let title = if c + 1 == n {
                                    None
                                } else {
                                    Some(substring(line, c + 1, n))
                                };
                                proof {
                                    assert(v.skip(c - j + 1) =~= line@.subrange(c + 1, n as int));
                                }
                                Ok(Tag::ExtInf { duration: d, title })
                            },
                            None => Err(ParseTagError::ParseFloat),
                        }
                    }
                },
            }
        } else if str_starts_with(line, "EXT-X-VERSION") {
            let k = str_len("EXT-X-VERSION");
            match expect_colon(line, k) {
                None => Err(ParseTagError::MissingColon),
                Some(j) => {
                    proof {
                        assert(line@.skip(k as int).skip(1) =~= line@.skip(j as int));
                    }
                    match parse_bounded_int(line, j, 255) {
                        Some(u) => Ok(Tag::ExtXVersion { version: u as u8 }),
                        None => Err(ParseTagError::ParseInt),
                    }
                },
            }
        } else if str_starts_with(line, "EXT-X-MEDIA-SEQUENCE") {
            let k = str_len("EXT-X-MEDIA-SEQUENCE");
            match expect_colon(line, k) {
                None => Err(ParseTagError::MissingColon),
                Some(j) => {
                    proof {
                        assert(line@.skip(k as int).skip(1) =~= line@.skip(j as int));
                    }
                    match parse_bounded_int(line, j, u64::MAX) {
                        Some(u) => Ok(Tag::ExtXMediaSequence { number: u }),
                        None => Err(ParseTagError::ParseInt),
                    }
                },
            }
        } else if str_starts_with(line, "EXT-X-KEY") {
            let k = str_len("EXT-X-KEY");
            match expect_colon(line, k) {
                None => Err(ParseTagError::MissingColon),
                Some(j) => {
                    let n = str_len(line);
                    let vs = substring(line, j, n);
                    proof {
                        assert(line@.skip(k as int).skip(1) =~= line@.skip(j as int));
                        assert(vs@ =~= line@.skip(j as int));
                    }
                    let mut parser = AttributeListParser::new(vs.as_str());
                    match key_attrs(&mut parser, KeyAcc { method: None, uri: None }) {
                        Err(e) => Err(e),
                        Ok(acc) => match acc.method {
                            None => Err(ParseTagError::MissingAttribute { name: "METHOD" }),
                            Some(m) => Ok(Tag::ExtXKey { method: m, uri: acc.uri }),
                        },
                    }
                },
            }
        } else if str_starts_with(line, "EXT-X-STREAM-INF") {
            let k = str_len("EXT-X-STREAM-INF");
            match expect_colon(line, k) {
                None => Err(ParseTagError::MissingColon),
                Some(j) => {
                    let n = str_len(line);
                    let vs = substring(line, j, n);
                    proof {
                        assert(line@.skip(k as int).skip(1) =~= line@.skip(j as int));
                        assert(vs@ =~= line@.skip(j as int));
                    }
                    let mut parser = AttributeListParser::new(vs.as_str());
                    let acc0 = StreamInfAcc {
                        bandwidth: None,
                        average_bandwidth: None,
                        codecs: None,
                        program_id: None,
                        resolution: None,
                        frame_rate: None,
                        video_range: None,
                        name: None,
                    };
                    match stream_inf_attrs(&mut parser, acc0) {
                        Err(e) => Err(e),
                        Ok(acc) => match acc.bandwidth {
                            None => Err(ParseTagError::MissingAttribute { name: "BANDWIDTH" }),
                            Some(bandwidth) => Ok(
                                Tag::ExtXStreamInf {
                                    bandwidth,
                                    average_bandwidth: acc.average_bandwidth,
                                    codecs: acc.codecs,
                                    resolution: acc.resolution,
                                    frame_rate: acc.frame_rate,
                                    video_range: acc.video_range,
                                    name: acc.name,
                                },
                            ),
                        },
                    }
                },
            }
        } else if str_starts_with(line, "EXT-X-ALLOW-CACHE") {
            Ok(Tag::ExtXAllowCache)
        } else if str_starts_with(line, "EXT-X-PLAYLIST-TYPE") {
            let k = str_len("EXT-X-PLAYLIST-TYPE");
            match expect_colon(line, k) {
                None => Err(ParseTagError::MissingColon),
                Some(j) => {
                    let n = str_len(line);
                    let vs = substring(line, j, n);
                    proof {
                        assert(line@.skip(k as int).skip(1) =~= line@.skip(j as int));
                        assert(vs@ =~= line@.skip(j as int));
                    }
                    match PlaylistType::from_str(vs.as_str()) {
                        Ok(t) => Ok(Tag::ExtXPlaylistType { playlist_type: t }),
                        Err(e) => Err(ParseTagError::InvalidPlaylistType { error: e }),
                    }
                },
            }
        } else if str_starts_with(line, "EXT-X-ENDLIST") {
            Ok(Tag::ExtXEndList)
        } else if str_starts_with(line, "EXT-X-INDEPENDENT-SEGMENTS") {
            Ok(Tag::ExtXIndependentSegments)
        } else {
            Err(ParseTagError::Unknown { line: line.to_owned() })
        }
    }
}

} // verus!
