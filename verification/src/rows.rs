//! Binding rows returned by fact-store queries.
//!
//! A query answer is a sequence of rows; each row maps a variable name to a
//! value. The store may report a variable either under its bare name or with
//! a leading `?` sigil, and values may arrive wrapped in quotes or angle
//! brackets. Lookups are normalized here, at the store-client boundary, so
//! that no other module deals with the two key forms.

use vstd::prelude::*;

verus! {

/// One query-answer row: bindings from variable name to value.
/// A value of `None` records that the store bound the variable to something
/// other than a string.
pub type Row = Vec<(String, Option<String>)>;

/// The mathematical shape of a row.
pub type RowModel = Seq<(Seq<char>, Option<Seq<char>>)>;

/// Characters stripped from the ends of a raw store value: the quotes of a
/// literal and the angle brackets of a resource reference.
pub open spec fn is_wrapping_char(c: char) -> bool {
    c == '"' || c == '<' || c == '>'
}

pub open spec fn trim_start_model(s: Seq<char>) -> Seq<char>
    decreases s.len(),
{
    if s.len() > 0 && is_wrapping_char(s[0]) {
        trim_start_model(s.drop_first())
    } else {
        s
    }
}

pub open spec fn trim_end_model(s: Seq<char>) -> Seq<char>
    decreases s.len(),
{
    if s.len() > 0 && is_wrapping_char(s.last()) {
        trim_end_model(s.drop_last())
    } else {
        s
    }
}

/// A raw store value with wrapping quotes and angle brackets removed.
pub open spec fn clean_model(s: Seq<char>) -> Seq<char> {
    trim_end_model(trim_start_model(s))
}

fn is_wrapping(c: char) -> (r: bool)
    ensures
        r == is_wrapping_char(c),
{
    c == '"' || c == '<' || c == '>'
}

fn trim_start_str(s: &str) -> (r: String)
    ensures
        r@ == trim_start_model(s@),
    decreases s@.len(),
{
    let n = s.unicode_len();
    if n > 0 && is_wrapping(s.get_char(0)) {
        let rest = s.substring_char(1, n);
        proof {
            assert(rest@ =~= s@.drop_first());
        }
        trim_start_str(rest)
    } else {
        s.to_owned()
    }
}

fn trim_end_str(s: &str) -> (r: String)
    ensures
        r@ == trim_end_model(s@),
    decreases s@.len(),
{
    let n = s.unicode_len();
    if n > 0 && is_wrapping(s.get_char(n - 1)) {
        let rest = s.substring_char(0, n - 1);
        proof {
            assert(rest@ =~= s@.drop_last());
        }
        trim_end_str(rest)
    } else {
        s.to_owned()
    }
}

/// Strips wrapping quotes and angle brackets from both ends of a raw store
/// value; a missing or non-string value is read as the empty string.
pub fn clean_val(v: &Option<String>) -> (r: String)
    ensures
        r@ == clean_opt_model(v.deep_view()),
{
    match v {
        Some(s) => {
            let t = trim_start_str(s.as_str());
            trim_end_str(t.as_str())
        },
        None => String::new(),
    }
}

/// `clean_model` lifted to a possibly absent value.
pub open spec fn clean_opt_model(v: Option<Seq<char>>) -> Seq<char> {
    match v {
        Some(s) => clean_model(s),
        None => Seq::empty(),
    }
}

/// The first binding for `key` in `row`, scanning from position `i`.
pub open spec fn binding_from(row: RowModel, i: int, key: Seq<char>) -> Option<Option<Seq<char>>>
    decreases row.len() - i,
{
    if i < 0 || i >= row.len() {
        None
    } else if row[i].0 == key {
        Some(row[i].1)
    } else {
        binding_from(row, i + 1, key)
    }
}

/// The first binding for `key` in `row`.
pub open spec fn binding_of(row: RowModel, key: Seq<char>) -> Option<Option<Seq<char>>> {
    binding_from(row, 0, key)
}

/// A lookup normalized over the two key forms the store may use: the
/// sigil-carrying form `?name` is consulted first, the bare `name` second.
pub open spec fn row_get_model(row: RowModel, name: Seq<char>) -> Option<Option<Seq<char>>> {
    match binding_of(row, seq!['?'].add(name)) {
        Some(v) => Some(v),
        None => binding_of(row, name),
    }
}

fn find_binding(row: &Row, key: &String) -> (r: Option<Option<String>>)
    ensures
        r.deep_view() == binding_of(row.deep_view(), key@),
{
    let ghost rowm = row.deep_view();
    let mut i: usize = 0;
    while i < row.len()
        invariant
            0 <= i <= row.len(),
            rowm == row.deep_view(),
            rowm.len() == row.len(),
            binding_of(rowm, key@) == binding_from(rowm, i as int, key@),
        decreases row.len() - i,
    {
        proof {
            assert(rowm[i as int].0 == row[i as int].0@);
            assert(rowm[i as int].1 == row[i as int].1.deep_view());
        }
        if row[i].0.eq(key) {
            let v = match &row[i].1 {
                Some(s) => Some(s.clone()),
                None => None,
            };
            return Some(v);
        }
        i += 1;
    }
    None
}

/// Looks `name` up in a row, trying the `?`-prefixed key first and the bare
/// key second. `Some(None)` reports a binding to a non-string value.
pub fn row_get(row: &Row, name: &str) -> (r: Option<Option<String>>)
    ensures
        r.deep_view() == row_get_model(row.deep_view(), name@),
{
    let sigil = String::from_str("?").concat(name);
    proof {
        reveal_strlit("?");
        assert(sigil@ =~= seq!['?'].add(name@));
    }
    match find_binding(row, &sigil) {
        Some(v) => Some(v),
        None => find_binding(row, &String::from_str(name)),
    }
}

} // verus!
