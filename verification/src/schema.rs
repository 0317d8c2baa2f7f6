//! The column declaration of a file: the names that a `#Fields:` line lists,
//! the position that each name stands for, and the fields of a data line
//! read through them.

use crate::text::{
    chars_of, find_last, i32_of, lemma_position_of, parse_i32, pieces_of, position_of, slot,
    split_on, string_of,
    strip_prefix_runs, texts, trim, trimmed, without_prefix_runs,
};
use vstd::prelude::*;
use vstd::seq_lib::seq_to_set_is_finite;

verus! {

/// The words that open a column declaration.
pub const FIELDS_DIRECTIVE: &'static str = "#Fields:";

/// The names that a column declaration lists: what follows the directive,
/// split at commas, each piece without the white space around it.
pub open spec fn declared_names(header: Seq<char>) -> Seq<Seq<char>> {
    let list = pieces_of(without_prefix_runs(header, FIELDS_DIRECTIVE@), ',');
    Seq::new(list.len(), |i: int| trimmed(list[i]))
}

/// How many columns a declaration has: the number of different names in it.
pub open spec fn width_of(names: Seq<Seq<char>>) -> nat {
    names.to_set().len()
}

/// The field at a position of a data line, where there is a position and the
/// line is long enough to hold it.
pub open spec fn picked(fields: Seq<Seq<char>>, at: Option<int>) -> Option<Seq<char>> {
    match at {
        Some(i) => if 0 <= i < fields.len() {
            Some(fields[i])
        } else {
            None
        },
        None => None,
    }
}

/// The field of a data line that a name stands for, where the declaration
/// lists the name and the line is long enough to hold the position.
pub open spec fn field_at(names: Seq<Seq<char>>, fields: Seq<Seq<char>>, name: Seq<char>) -> Option<
    Seq<char>,
> {
    picked(fields, position_of(names, name))
}

/// A field that counts only where it holds something.
pub open spec fn present(field: Option<Seq<char>>) -> Option<Seq<char>> {
    match field {
        Some(text) => if text.len() > 0 {
            Some(text)
        } else {
            None
        },
        None => None,
    }
}

/// A field that is taken as empty where it is missing.
pub open spec fn or_empty(field: Option<Seq<char>>) -> Seq<char> {
    match field {
        Some(text) => text,
        None => Seq::<char>::empty(),
    }
}

/// The number that an optional field writes: none where the field is missing
/// or empty, and none where it does not write a 32-bit decimal integer.
pub open spec fn number_in(field: Option<Seq<char>>) -> Option<i32> {
    match present(field) {
        Some(text) => i32_of(text),
        None => None,
    }
}

/// The number that a field writes, zero where it writes none.
pub open spec fn number_or_zero(field: Option<Seq<char>>) -> i32 {
    match number_in(field) {
        Some(number) => number,
        None => 0,
    }
}

/// Whether a data line has a field at a position.
pub fn holds(fields: &Vec<Vec<char>>, at: Option<usize>) -> (held: bool)
    ensures
        held == picked(texts(fields@), slot(at)).is_some(),
{
    match at {
        Some(i) => i < fields.len(),
        None => false,
    }
}

/// The field at a position of a data line.
pub fn pick(fields: &Vec<Vec<char>>, at: Option<usize>) -> (field: Option<String>)
    ensures
        field.deep_view() == picked(texts(fields@), slot(at)),
{
    match at {
        Some(i) => {
            if i < fields.len() {
                Some(string_of(fields[i].as_slice()))
            } else {
                None
            }
        },
        None => None,
    }
}

/// The field at a position of a data line, where it holds something.
pub fn pick_present(fields: &Vec<Vec<char>>, at: Option<usize>) -> (field: Option<String>)
    ensures
        field.deep_view() == present(picked(texts(fields@), slot(at))),
{
    match at {
        Some(i) => {
            if i < fields.len() && fields[i].len() > 0 {
                Some(string_of(fields[i].as_slice()))
            } else {
                None
            }
        },
        None => None,
    }
}

/// The number that the field at a position of a data line writes.
pub fn pick_number(fields: &Vec<Vec<char>>, at: Option<usize>) -> (number: Option<i32>)
    ensures
        number == number_in(picked(texts(fields@), slot(at))),
{
    match at {
        Some(i) => {
            if i < fields.len() && fields[i].len() > 0 {
                parse_i32(fields[i].as_slice())
            } else {
                None
            }
        },
        None => None,
    }
}

/// The field at a position of a data line, empty where it is missing.
pub fn pick_or_empty(fields: &Vec<Vec<char>>, at: Option<usize>) -> (field: String)
    ensures
        field@ == or_empty(picked(texts(fields@), slot(at))),
{
    match at {
        Some(i) => {
            if i < fields.len() {
                string_of(fields[i].as_slice())
            } else {
                String::new()
            }
        },
        None => String::new(),
    }
}

/// The column declaration in force: a mapping from column name to position.
pub struct ColumnSchema {
    names: Vec<Vec<char>>,
    width: usize,
}

impl View for ColumnSchema {
    type V = Seq<Seq<char>>;

    /// The declared names, in the order of the declaration.
    closed spec fn view(&self) -> Seq<Seq<char>> {
        texts(self.names@)
    }
}

impl ColumnSchema {
    /// The recorded width is the width of the declaration.
    pub closed spec fn well_formed(&self) -> bool {
        self.width == width_of(self@)
    }

    /// Reads a column declaration.
    pub fn from_header(header: &[char]) -> (schema: ColumnSchema)
        ensures
            schema.well_formed(),
            schema@ == declared_names(header@),
    {
        let directive = chars_of(FIELDS_DIRECTIVE);
        let list_text = strip_prefix_runs(header, directive.as_slice());
        let list = split_on(list_text.as_slice(), ',');
        let ghost pieces = pieces_of(without_prefix_runs(header@, FIELDS_DIRECTIVE@), ',');
        let mut names: Vec<Vec<char>> = Vec::new();
        let mut width: usize = 0;
        let mut i: usize = 0;
        assert(texts(names@).to_set() =~= Set::<Seq<char>>::empty());
        while i < list.len()
            invariant
                i <= list.len(),
                texts(list@) == pieces,
                names@.len() == i,
                forall|k: int| 0 <= k < i ==> #[trigger] names@[k]@ == trimmed(pieces[k]),
                width == width_of(texts(names@)),
                width <= i,
            decreases list.len() - i,
        {
            let name = trim(list[i].as_slice());
            assert(list@[i as int]@ == texts(list@)[i as int]);
            let known = find_last(&names, name.as_slice());
            proof {
                let before = texts(names@);
                seq_to_set_is_finite(before);
                before.lemma_push_to_set_commute(name@);
                lemma_position_of(before, name@);
                assert(texts(names@.push(name)) == before.push(name@));
                assert(known.is_some() == before.to_set().contains(name@));
            }
            names.push(name);
            if known.is_none() {
                width += 1;
            }
            i += 1;
        }
        assert(texts(names@) == declared_names(header@));
        ColumnSchema { names, width }
    }

    /// How many columns the declaration has.
    pub fn width(&self) -> (width: usize)
        requires
            self.well_formed(),
        ensures
            width == width_of(self@),
    {
        self.width
    }

    /// The position that a column name stands for: the last place at which
    /// the declaration lists it.
    pub fn position(&self, name: &[char]) -> (at: Option<usize>)
        ensures
            slot(at) == position_of(self@, name@),
    {
        find_last(&self.names, name)
    }
}

} // verus!
