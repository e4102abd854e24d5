//! The diagnostics that every stage shares.

pub mod helpers;

use crate::text::{join, join_all, nat_text, push_nat, texts};
use vstd::prelude::*;

verus! {

/// What went wrong, and where it can be said.
#[derive(Debug, PartialEq)]
pub enum ParseError {
    SyntaxError { line: usize, column: usize, message: String },
    LexicalError { line: usize, column: usize, character: char },
    SemanticError { line: usize, column: usize, message: String },
    DuplicateDefinition { name: String, line: usize, column: usize },
    DeprecatedFeature { feature: String, line: usize, column: usize, suggestion: String },
    UnsupportedFeature { feature: String, line: usize, column: usize },
    InvalidValue { message: String, line: usize, column: usize },
    /// A failure of a stage that has no place in the source text.
    General { message: String },
    /// A failure to read or write.
    Io(String),
    /// A failure that the grammar engine reported in its own words.
    Pest(String),
}

impl Clone for ParseError {
    fn clone(&self) -> (r: Self)
        ensures
            r == *self,
    {
        match self {
            ParseError::SyntaxError { line, column, message } => ParseError::SyntaxError {
                line: *line,
                column: *column,
                message: message.clone(),
            },
            ParseError::LexicalError { line, column, character } => ParseError::LexicalError {
                line: *line,
                column: *column,
                character: *character,
            },
            ParseError::SemanticError { line, column, message } => ParseError::SemanticError {
                line: *line,
                column: *column,
                message: message.clone(),
            },
            ParseError::DuplicateDefinition { name, line, column } => {
                ParseError::DuplicateDefinition { name: name.clone(), line: *line, column: *column }
            },
            ParseError::DeprecatedFeature { feature, line, column, suggestion } => {
                ParseError::DeprecatedFeature {
                    feature: feature.clone(),
                    line: *line,
                    column: *column,
                    suggestion: suggestion.clone(),
                }
            },
            ParseError::UnsupportedFeature { feature, line, column } => {
                ParseError::UnsupportedFeature {
                    feature: feature.clone(),
                    line: *line,
                    column: *column,
                }
            },
            ParseError::InvalidValue { message, line, column } => ParseError::InvalidValue {
                message: message.clone(),
                line: *line,
                column: *column,
            },
            ParseError::General { message } => ParseError::General { message: message.clone() },
            ParseError::Io(message) => ParseError::Io(message.clone()),
            ParseError::Pest(message) => ParseError::Pest(message.clone()),
        }
    }
}

/// A copy of each error, in order.
fn copy_errors(v: &Vec<ParseError>) -> (r: Vec<ParseError>)
    ensures
        r@ == v@,
{
    let mut out: Vec<ParseError> = Vec::new();
    let mut i: usize = 0;
    while i < v.len()
        invariant
            i <= v.len(),
            out@ == v@.subrange(0, i as int),
        decreases v.len() - i,
    {
        out.push(v[i].clone());
        assert(out@ =~= v@.subrange(0, i + 1));
        i += 1;
    }
    assert(v@.subrange(0, v@.len() as int) =~= v@);
    out
}

/// The outcome of a stage.
pub type ParseResult<T> = Result<T, ParseError>;

/// `at line L, column C`.
pub open spec fn place_text(line: usize, column: usize) -> Seq<char> {
    " at line "@ + nat_text(line as nat) + ", column "@ + nat_text(column as nat)
}

fn place(line: usize, column: usize) -> (r: String)
    ensures
        r@ == place_text(line, column),
{
    let mut s = " at line ".to_owned();
    push_nat(&mut s, line as u64);
    s.append(", column ");
    push_nat(&mut s, column as u64);
    s
}

impl ParseError {
    pub fn syntax_error(line: usize, column: usize, message: &str) -> (r: Self)
        ensures
            r matches ParseError::SyntaxError { line: l, column: c, message: m } && l == line && c
                == column && m@ == message@,
    {
        ParseError::SyntaxError { line, column, message: message.to_owned() }
    }

    pub fn lexical_error(line: usize, column: usize, character: char) -> (r: Self)
        ensures
            r == (ParseError::LexicalError { line, column, character }),
    {
        ParseError::LexicalError { line, column, character }
    }

    pub fn semantic_error(line: usize, column: usize, message: &str) -> (r: Self)
        ensures
            r matches ParseError::SemanticError { line: l, column: c, message: m } && l == line && c
                == column && m@ == message@,
    {
        ParseError::SemanticError { line, column, message: message.to_owned() }
    }

    pub fn duplicate_definition(name: &str, line: usize, column: usize) -> (r: Self)
        ensures
            r matches ParseError::DuplicateDefinition { name: n, line: l, column: c } && l == line
                && c == column && n@ == name@,
    {
        ParseError::DuplicateDefinition { name: name.to_owned(), line, column }
    }

    pub fn deprecated_feature(feature: &str, line: usize, column: usize, suggestion: &str) -> (r:
        Self)
        ensures
            r matches ParseError::DeprecatedFeature { feature: f, line: l, column: c, suggestion: s }
                && l == line && c == column && f@ == feature@ && s@ == suggestion@,
    {
        ParseError::DeprecatedFeature {
            feature: feature.to_owned(),
            line,
            column,
            suggestion: suggestion.to_owned(),
        }
    }

    pub fn unsupported_feature(feature: &str, line: usize, column: usize) -> (r: Self)
        ensures
            r matches ParseError::UnsupportedFeature { feature: f, line: l, column: c } && l == line
                && c == column && f@ == feature@,
    {
        ParseError::UnsupportedFeature { feature: feature.to_owned(), line, column }
    }

    pub fn invalid_value(message: &str, line: usize, column: usize) -> (r: Self)
        ensures
            r matches ParseError::InvalidValue { message: m, line: l, column: c } && l == line && c
                == column && m@ == message@,
    {
        ParseError::InvalidValue { message: message.to_owned(), line, column }
    }

    pub fn general(message: &str) -> (r: Self)
        ensures
            r matches ParseError::General { message: m } && m@ == message@,
    {
        ParseError::General { message: message.to_owned() }
    }

    /// The line of the error, for the kinds that have a place.
    pub open spec fn spec_line(&self) -> Option<usize> {
        match self {
            ParseError::SyntaxError { line, .. } => Some(*line),
            ParseError::LexicalError { line, .. } => Some(*line),
            ParseError::SemanticError { line, .. } => Some(*line),
            ParseError::DuplicateDefinition { line, .. } => Some(*line),
            ParseError::DeprecatedFeature { line, .. } => Some(*line),
            ParseError::UnsupportedFeature { line, .. } => Some(*line),
            ParseError::InvalidValue { line, .. } => Some(*line),
            _ => None,
        }
    }

    /// The column of the error, for the kinds that have a place.
    pub open spec fn spec_column(&self) -> Option<usize> {
        match self {
            ParseError::SyntaxError { column, .. } => Some(*column),
            ParseError::LexicalError { column, .. } => Some(*column),
            ParseError::SemanticError { column, .. } => Some(*column),
            ParseError::DuplicateDefinition { column, .. } => Some(*column),
            ParseError::DeprecatedFeature { column, .. } => Some(*column),
            ParseError::UnsupportedFeature { column, .. } => Some(*column),
            ParseError::InvalidValue { column, .. } => Some(*column),
            _ => None,
        }
    }

    /// The line of the error, for the kinds that have a place.
    pub fn line(&self) -> (r: Option<usize>)
        ensures
            r == self.spec_line(),
    {
        match self {
            ParseError::SyntaxError { line, .. } => Some(*line),
            ParseError::LexicalError { line, .. } => Some(*line),
            ParseError::SemanticError { line, .. } => Some(*line),
            ParseError::DuplicateDefinition { line, .. } => Some(*line),
            ParseError::DeprecatedFeature { line, .. } => Some(*line),
            ParseError::UnsupportedFeature { line, .. } => Some(*line),
            ParseError::InvalidValue { line, .. } => Some(*line),
            _ => None,
        }
    }

    /// The column of the error, for the kinds that have a place.
    pub fn column(&self) -> (r: Option<usize>)
        ensures
            r == self.spec_column(),
    {
        match self {
            ParseError::SyntaxError { column, .. } => Some(*column),
            ParseError::LexicalError { column, .. } => Some(*column),
            ParseError::SemanticError { column, .. } => Some(*column),
            ParseError::DuplicateDefinition { column, .. } => Some(*column),
            ParseError::DeprecatedFeature { column, .. } => Some(*column),
            ParseError::UnsupportedFeature { column, .. } => Some(*column),
            ParseError::InvalidValue { column, .. } => Some(*column),
            _ => None,
        }
    }

    /// The error in words.
    pub open spec fn text(&self) -> Seq<char> {
        match self {
            ParseError::SyntaxError { line, column, message } => "Syntax error"@ + place_text(
                *line,
                *column,
            ) + ": "@ + message@,
            ParseError::LexicalError { line, column, character } => "Lexical error"@ + place_text(
                *line,
                *column,
            ) + ": illegal character '"@ + seq![*character] + "'"@,
            ParseError::SemanticError { line, column, message } => "Semantic error"@ + place_text(
                *line,
                *column,
            ) + ": "@ + message@,
            ParseError::DuplicateDefinition { name, line, column } => "Duplicate definition: "@
                + name@ + place_text(*line, *column),
            ParseError::DeprecatedFeature { feature, line, column, suggestion } =>
                "Deprecated feature: "@ + feature@ + place_text(*line, *column) + ". "@
                    + suggestion@,
            ParseError::UnsupportedFeature { feature, line, column } => "Unsupported feature: "@
                + feature@ + place_text(*line, *column),
            ParseError::InvalidValue { message, line, column } => "Invalid value: "@ + message@
                + place_text(*line, *column),
            ParseError::General { message } => "Parse error: "@ + message@,
            ParseError::Io(message) => "IO error: "@ + message@,
            ParseError::Pest(message) => "Pest parsing error: "@ + message@,
        }
    }

    /// The error in words.
    pub fn to_string(&self) -> (r: String)
        ensures
            r@ == self.text(),
    {
        match self {
            ParseError::SyntaxError { line, column, message } => {
                let mut s = "Syntax error".to_owned();
                s.append(place(*line, *column).as_str());
                s.append(": ");
                s.append(message.as_str());
                s
            },
            ParseError::LexicalError { line, column, character } => {
                let mut s = "Lexical error".to_owned();
                s.append(place(*line, *column).as_str());
                s.append(": illegal character '");
                let mut c = String::new();
                c.push(*character);
                assert(c@ =~= seq![*character]);
                s.append(c.as_str());
                s.append("'");
                s
            },
            ParseError::SemanticError { line, column, message } => {
                let mut s = "Semantic error".to_owned();
                s.append(place(*line, *column).as_str());
                s.append(": ");
                s.append(message.as_str());
                s
            },
            ParseError::DuplicateDefinition { name, line, column } => {
                let mut s = "Duplicate definition: ".to_owned();
                s.append(name.as_str());
                s.append(place(*line, *column).as_str());
                s
            },
            ParseError::DeprecatedFeature { feature, line, column, suggestion } => {
                let mut s = "Deprecated feature: ".to_owned();
                s.append(feature.as_str());
                s.append(place(*line, *column).as_str());
                s.append(". ");
                s.append(suggestion.as_str());
                s
            },
            ParseError::UnsupportedFeature { feature, line, column } => {
                let mut s = "Unsupported feature: ".to_owned();
                s.append(feature.as_str());
                s.append(place(*line, *column).as_str());
                s
            },
            ParseError::InvalidValue { message, line, column } => {
                let mut s = "Invalid value: ".to_owned();
                s.append(message.as_str());
                s.append(place(*line, *column).as_str());
                s
            },
            ParseError::General { message } => {
                let mut s = "Parse error: ".to_owned();
                s.append(message.as_str());
                s
            },
            ParseError::Io(message) => {
                let mut s = "IO error: ".to_owned();
                s.append(message.as_str());
                s
            },
            ParseError::Pest(message) => {
                let mut s = "Pest parsing error: ".to_owned();
                s.append(message.as_str());
                s
            },
        }
    }
}

/// Errors and warnings gathered over one run.
#[derive(Debug)]
pub struct ErrorCollection {
    pub errors: Vec<ParseError>,
    pub warnings: Vec<ParseError>,
}

impl Clone for ErrorCollection {
    fn clone(&self) -> (r: Self)
        ensures
            r.errors@ == self.errors@,
            r.warnings@ == self.warnings@,
    {
        ErrorCollection { errors: copy_errors(&self.errors), warnings: copy_errors(&self.warnings) }
    }
}

impl Default for ErrorCollection {
    fn default() -> (r: Self)
        ensures
            r.errors@.len() == 0,
            r.warnings@.len() == 0,
    {
        ErrorCollection { errors: Vec::new(), warnings: Vec::new() }
    }
}

/// The errors in words.
pub open spec fn error_texts(errors: Seq<ParseError>) -> Seq<Seq<char>> {
    Seq::new(errors.len(), |i: int| errors[i].text())
}

/// The first `n` errors, each on a line of its own behind two spaces.
pub open spec fn listed(errors: Seq<ParseError>, n: int) -> Seq<char>
    decreases n,
{
    if n <= 0 || n > errors.len() {
        Seq::empty()
    } else {
        listed(errors, n - 1) + "  "@ + errors[n - 1].text() + "\n"@
    }
}

/// A list of errors under a title; nothing for an empty list.
pub open spec fn section(title: Seq<char>, errors: Seq<ParseError>) -> Seq<char> {
    if errors.len() > 0 {
        title + listed(errors, errors.len() as int)
    } else {
        Seq::empty()
    }
}

fn section_of(title: &str, errors: &Vec<ParseError>) -> (r: String)
    ensures
        r@ == section(title@, errors@),
{
    if errors.len() == 0 {
        return String::new();
    }
    let mut out = title.to_owned();
    let mut i: usize = 0;
    assert(out@ =~= title@ + listed(errors@, 0));
    while i < errors.len()
        invariant
            i <= errors.len(),
            out@ == title@ + listed(errors@, i as int),
        decreases errors.len() - i,
    {
        let ghost prev = listed(errors@, i as int);
        let mut line = "  ".to_owned();
        line.append(errors[i].to_string().as_str());
        line.append("\n");
        out.append(line.as_str());
        i += 1;
        assert(out@ =~= title@ + (prev + "  "@ + errors@[i - 1].text() + "\n"@));
    }
    out
}

impl ErrorCollection {
    pub fn new() -> (r: Self)
        ensures
            r.errors@.len() == 0,
            r.warnings@.len() == 0,
    {
        ErrorCollection { errors: Vec::new(), warnings: Vec::new() }
    }

    pub fn add_error(&mut self, error: ParseError)
        ensures
            final(self).errors@ == old(self).errors@.push(error),
            final(self).warnings@ == old(self).warnings@,
    {
        self.errors.push(error);
    }

    pub fn add_warning(&mut self, warning: ParseError)
        ensures
            final(self).warnings@ == old(self).warnings@.push(warning),
            final(self).errors@ == old(self).errors@,
    {
        self.warnings.push(warning);
    }

    pub fn has_errors(&self) -> (r: bool)
        ensures
            r == (self.errors@.len() > 0),
    {
        self.errors.len() > 0
    }

    pub fn has_warnings(&self) -> (r: bool)
        ensures
            r == (self.warnings@.len() > 0),
    {
        self.warnings.len() > 0
    }

    pub fn is_empty(&self) -> (r: bool)
        ensures
            r == (self.errors@.len() == 0 && self.warnings@.len() == 0),
    {
        self.errors.len() == 0 && self.warnings.len() == 0
    }

    /// What a collection with several errors reports: all of them in words,
    /// with `; ` between.
    pub open spec fn summary(&self) -> Seq<char> {
        "Multiple errors: "@ + join_all(error_texts(self.errors@), "; "@)
    }

    /// The value where there is no error; the error where there is one; a
    /// general error that sums them up where there are several. Warnings do
    /// not count.
    pub fn into_result<T>(self, value: T) -> (r: ParseResult<T>)
        ensures
            self.errors@.len() == 0 ==> r == Ok::<T, ParseError>(value),
            self.errors@.len() == 1 ==> r == Err::<T, ParseError>(self.errors@[0]),
            self.errors@.len() > 1 ==> (r matches Err(ParseError::General { message }) && message@
                == self.summary()),
    {
        if self.has_errors() {
            if self.errors.len() == 1 {
                let mut errors = self.errors;
                let e = errors.remove(0);
                Err(e)
            } else {
                let mut messages: Vec<String> = Vec::new();
                let mut i: usize = 0;
                while i < self.errors.len()
                    invariant
                        i <= self.errors.len(),
                        messages@.len() == i,
                        forall|j: int| 0 <= j < i ==> messages@[j]@ == self.errors@[j].text(),
                    decreases self.errors.len() - i,
                {
                    messages.push(self.errors[i].to_string());
                    i += 1;
                }
                assert(texts(messages@) =~= error_texts(self.errors@));
                let mut message = "Multiple errors: ".to_owned();
                message.append(join(&messages, "; ").as_str());
                Err(ParseError::General { message })
            }
        } else {
            Ok(value)
        }
    }

    /// The collection in words: the errors under `Errors:`, then the warnings
    /// under `Warnings:`.
    pub open spec fn text(&self) -> Seq<char> {
        section("Errors:\n"@, self.errors@) + section("Warnings:\n"@, self.warnings@)
    }

    /// The collection in words.
    pub fn to_string(&self) -> (r: String)
        ensures
            r@ == self.text(),
    {
        let mut out = section_of("Errors:\n", &self.errors);
        out.append(section_of("Warnings:\n", &self.warnings).as_str());
        out
    }
}

} // verus!
