//! Reading the lines of a file, whatever kind of records it holds: the
//! column declarations are followed through the file, and every data row is
//! handed to the reader of the file's kind under the declaration in force.

use crate::error::ParseError;
use crate::schema::{declared_names, width_of, ColumnSchema, FIELDS_DIRECTIVE};
use crate::text::{
    chars_of, has_prefix, lines_of, pieces_of, split_lines, split_on, starts_with, texts, trim,
    trimmed,
};
use vstd::prelude::*;

verus! {

/// The character that opens a comment line.
pub const COMMENT_MARK: char = '#';

/// What a line is to the parser.
#[derive(Debug, Clone, Copy, PartialEq, Eq, Structural)]
pub enum LineRole {
    /// A column declaration, which governs the lines after it.
    Declaration,
    /// A comment or a blank line, which has no effect.
    Ignored,
    /// A data row.
    Data,
}

/// What a line is to the parser: a column declaration where it begins with
/// the directive; else ignored where it begins with the comment mark or holds
/// nothing but white space; else a data row.
pub open spec fn role_of(line: Seq<char>) -> LineRole {
    if has_prefix(line, FIELDS_DIRECTIVE@) {
        LineRole::Declaration
    } else if (line.len() > 0 && line[0] == COMMENT_MARK) || trimmed(line).len() == 0 {
        LineRole::Ignored
    } else {
        LineRole::Data
    }
}

/// What turns the data rows of one kind of file into records.
pub trait RowReader: Sized {
    /// A record, its texts as character sequences.
    type Record;

    /// The positions of the columns that the reader reads, under one column
    /// declaration.
    type Columns;

    /// The records read so far.
    spec fn records(&self) -> Seq<Self::Record>;

    /// What the reader holds beside the records agrees with them.
    spec fn consistent(&self) -> bool;

    /// The positions are those that the declaration gives.
    spec fn columns_consistent(columns: &Self::Columns) -> bool;

    /// The declared names that the positions were taken from.
    spec fn names(columns: &Self::Columns) -> Seq<Seq<char>>;

    /// The records after a data row that is long enough for the declaration,
    /// or the error that ends the file.
    spec fn after_row(
        names: Seq<Seq<char>>,
        records: Seq<Self::Record>,
        fields: Seq<Seq<char>>,
    ) -> Result<Seq<Self::Record>, ParseError>;

    /// A reader that has read nothing yet.
    fn start() -> (reader: Self)
        ensures
            reader.consistent(),
            reader.records() == Seq::<Self::Record>::empty(),
    ;

    /// Looks the columns of the kind up in a declaration.
    fn resolve(schema: &ColumnSchema) -> (columns: Self::Columns)
        requires
            schema.well_formed(),
        ensures
            Self::columns_consistent(&columns),
            Self::names(&columns) == schema@,
    ;

    /// How many columns the declaration has.
    fn width(columns: &Self::Columns) -> (width: usize)
        requires
            Self::columns_consistent(columns),
        ensures
            width == width_of(Self::names(columns)),
    ;

    /// Takes in the fields of a data row that is long enough for the
    /// declaration.
    fn take_row(&mut self, fields: &Vec<Vec<char>>, columns: &Self::Columns) -> (outcome: Result<
        (),
        ParseError,
    >)
        requires
            old(self).consistent(),
            Self::columns_consistent(columns),
            fields@.len() >= width_of(Self::names(columns)),
        ensures
            match Self::after_row(Self::names(columns), old(self).records(), texts(fields@)) {
                Ok(records) => {
                    &&& outcome.is_ok()
                    &&& final(self).consistent()
                    &&& final(self).records() == records
                },
                Err(error) => outcome == Err::<(), ParseError>(error),
            },
    ;
}

/// How far the parsing of a file has come: the column declaration in force,
/// if any was seen, and the records so far.
pub ghost struct Progress<R> {
    pub columns: Option<Seq<Seq<char>>>,
    pub records: Seq<R>,
}

/// The state before the first line.
pub open spec fn at_start<R>() -> Progress<R> {
    Progress { columns: None, records: Seq::empty() }
}

/// The progress after one more line.
///
/// A declaration replaces the one in force. A data row is split at commas and
/// read under the declaration in force; before the first declaration, and
/// where it has fewer fields than the declaration has columns, it has no
/// effect. Comments and blank lines have none.
pub open spec fn step<T: RowReader>(progress: Progress<T::Record>, line: Seq<char>) -> Result<
    Progress<T::Record>,
    ParseError,
> {
    match role_of(line) {
        LineRole::Declaration => Ok(
            Progress { columns: Some(declared_names(line)), records: progress.records },
        ),
        LineRole::Ignored => Ok(progress),
        LineRole::Data => match progress.columns {
            Some(names) => if pieces_of(line, ',').len() < width_of(names) {
                Ok(progress)
            } else {
                match T::after_row(names, progress.records, pieces_of(line, ',')) {
                    Ok(records) => Ok(Progress { columns: progress.columns, records }),
                    Err(error) => Err(error),
                }
            },
            None => Ok(progress),
        },
    }
}

/// The progress after the given lines, in order; the first error ends it.
pub open spec fn fold<T: RowReader>(
    progress: Progress<T::Record>,
    lines: Seq<Seq<char>>,
) -> Result<Progress<T::Record>, ParseError>
    decreases lines.len(),
{
    if lines.len() == 0 {
        Ok(progress)
    } else {
        match step::<T>(progress, lines[0]) {
            Ok(next) => fold::<T>(next, lines.drop_first()),
            Err(error) => Err(error),
        }
    }
}

/// The records that a text gives when it is read as a file of one kind.
pub open spec fn records_of<T: RowReader>(text: Seq<char>) -> Result<Seq<T::Record>, ParseError> {
    match fold::<T>(at_start(), lines_of(text)) {
        Ok(progress) => Ok(progress.records),
        Err(error) => Err(error),
    }
}

/// A column declaration governs the lines after it, whatever was declared
/// before: from two states with the same records, a declaration and the
/// lines after it lead to the same outcome, the one that these lines give
/// under the new declaration alone.
pub proof fn lemma_declaration_governs<T: RowReader>(
    held: Progress<T::Record>,
    other: Progress<T::Record>,
    declaration: Seq<char>,
    rest: Seq<Seq<char>>,
)
    requires
        role_of(declaration) == LineRole::Declaration,
        held.records == other.records,
    ensures
        fold::<T>(held, seq![declaration] + rest) == fold::<T>(other, seq![declaration] + rest),
        fold::<T>(held, seq![declaration] + rest) == fold::<T>(
            Progress { columns: Some(declared_names(declaration)), records: held.records },
            rest,
        ),
{
    let lines = seq![declaration] + rest;
    assert(lines[0] == declaration);
    assert(lines.drop_first() == rest);
}

/// A data row with fewer fields than the declaration in force has columns is
/// passed over: it is no error, and the lines after it give what they give
/// without it.
pub proof fn lemma_short_line_passed_over<T: RowReader>(
    progress: Progress<T::Record>,
    line: Seq<char>,
    rest: Seq<Seq<char>>,
)
    requires
        role_of(line) == LineRole::Data,
        progress.columns matches Some(names) && pieces_of(line, ',').len() < width_of(names),
    ensures
        step::<T>(progress, line) == Ok::<Progress<T::Record>, ParseError>(progress),
        fold::<T>(progress, seq![line] + rest) == fold::<T>(progress, rest),
{
    let lines = seq![line] + rest;
    assert(lines[0] == line);
    assert(lines.drop_first() == rest);
}

/// Finds out what a line is to the parser.
fn line_role(line: &[char], directive: &[char]) -> (role: LineRole)
    requires
        directive@ == FIELDS_DIRECTIVE@,
    ensures
        role == role_of(line@),
{
    if starts_with(line, directive) {
        LineRole::Declaration
    } else if line.len() > 0 && line[0] == COMMENT_MARK {
        LineRole::Ignored
    } else if trim(line).len() == 0 {
        LineRole::Ignored
    } else {
        LineRole::Data
    }
}

/// The declared names behind resolved columns.
pub open spec fn names_in_force<T: RowReader>(columns: Option<T::Columns>) -> Option<
    Seq<Seq<char>>,
> {
    match columns {
        Some(resolved) => Some(T::names(&resolved)),
        None => None,
    }
}

/// Reads a text as a file of one kind: the reader that has taken in every
/// data row, or the first error.
pub fn read_rows<T: RowReader>(text: &str) -> (outcome: Result<T, ParseError>)
    ensures
        match records_of::<T>(text@) {
            Ok(records) => outcome matches Ok(reader) && reader.consistent() && reader.records()
                == records,
            Err(error) => outcome matches Err(raised) && raised == error,
        },
{
    let chars = chars_of(text);
    let lines = split_lines(chars.as_slice());
    let directive = chars_of(FIELDS_DIRECTIVE);
    let mut columns: Option<T::Columns> = None;
    let mut reader = T::start();
    let mut i: usize = 0;
    assert(texts(lines@).skip(0) == texts(lines@));
    while i < lines.len()
        invariant
            i <= lines.len(),
            directive@ == FIELDS_DIRECTIVE@,
            texts(lines@) == lines_of(text@),
            reader.consistent(),
            columns matches Some(resolved) ==> T::columns_consistent(&resolved),
            fold::<T>(at_start(), lines_of(text@)) == fold::<T>(
                Progress { columns: names_in_force::<T>(columns), records: reader.records() },
                texts(lines@).skip(i as int),
            ),
        decreases lines.len() - i,
    {
        let ghost rest = texts(lines@).skip(i as int);
        assert(rest[0] == lines@[i as int]@);
        assert(rest.drop_first() == texts(lines@).skip(i + 1));
        let line = lines[i].as_slice();
        match line_role(line, directive.as_slice()) {
            LineRole::Declaration => {
                let schema = ColumnSchema::from_header(line);
                columns = Some(T::resolve(&schema));
            },
            LineRole::Ignored => {},
            LineRole::Data => {
                match &columns {
                    Some(resolved) => {
                        let fields = split_on(line, ',');
                        if fields.len() >= T::width(resolved) {
                            match reader.take_row(&fields, resolved) {
                                Ok(()) => {},
                                Err(error) => {
                                    return Err(error);
                                },
                            }
                        }
                    },
                    None => {},
                }
            },
        }
        i += 1;
    }
    Ok(reader)
}

} // verus!
