//! Reading the report of the loader-inspection tool.
//!
//! The tool prints one record per line. A record of four blank-separated
//! fields, `name => path (address)`, names a resolved library in its third
//! field; a record of two fields, `path (address)`, names one in its first.
//! A record of any other shape, or one whose chosen field is not an
//! absolute path, names no library that could be bundled.
//!
//! A report counts only if the tool ended well and its output is text: a
//! binary that the tool could not inspect has no list of dependencies, not
//! an empty one.

use vstd::prelude::*;
use crate::path::{is_absolute, SEPARATOR};
use crate::text::chars_of;

verus! {

/// The character that ends a record.
pub const NEWLINE: char = '\n';

/// Why a run of the loader-inspection tool gives no list of dependencies.
#[derive(Debug, Clone, Copy, PartialEq, Eq, Structural)]
pub enum ListerFault {
    /// The tool did not end with success.
    ToolFailed,
    /// The tool ended with success, but its output is not valid text.
    NotText,
}

/// Blanks separate the fields of a record.
pub open spec fn is_blank(c: char) -> bool {
    c == ' ' || c == '\t'
}

/// Length of the record that `text` begins with: all that precedes its
/// first newline.
pub open spec fn record_len(text: Seq<char>) -> nat
    decreases text.len(),
{
    if text.len() > 0 && text[0] != NEWLINE {
        1 + record_len(text.skip(1))
    } else {
        0
    }
}

/// Length of the field that `text` begins with: all that precedes its first
/// blank.
pub open spec fn field_len(text: Seq<char>) -> nat
    decreases text.len(),
{
    if text.len() > 0 && !is_blank(text[0]) {
        1 + field_len(text.skip(1))
    } else {
        0
    }
}

/// The fields of a record: its maximal runs of characters that are not
/// blank, in order.
pub open spec fn fields(record: Seq<char>) -> Seq<Seq<char>>
    decreases record.len(),
    via fields_decreases
{
    if record.len() == 0 {
        Seq::empty()
    } else if is_blank(record[0]) {
        fields(record.skip(1))
    } else {
        let n = field_len(record);
        seq![record.take(n as int)] + fields(record.skip(n as int))
    }
}

#[via_fn]
proof fn fields_decreases(record: Seq<char>) {
    lemma_field_len(record);
}

/// The library that a record names, if any.
pub open spec fn record_path(record: Seq<char>) -> Option<Seq<char>> {
    let f = fields(record);
    if f.len() == 4 && is_absolute(f[2]) {
        Some(f[2])
    } else if f.len() == 2 && is_absolute(f[0]) {
        Some(f[0])
    } else {
        None
    }
}

/// The libraries that a report names, record by record, in the order of the
/// report. A library named twice is listed twice.
pub open spec fn dependencies(report: Seq<char>) -> Seq<Seq<char>>
    decreases report.len(),
    via dependencies_decreases
{
    if report.len() == 0 {
        Seq::empty()
    } else {
        let n = record_len(report);
        let named = match record_path(report.take(n as int)) {
            Some(path) => seq![path],
            None => Seq::empty(),
        };
        if n < report.len() {
            named + dependencies(report.skip(n + 1 as int))
        } else {
            named
        }
    }
}

#[via_fn]
proof fn dependencies_decreases(report: Seq<char>) {
    lemma_record_len(report);
}

/// A record ends at the first newline of the text, or with the text.
pub proof fn lemma_record_len(text: Seq<char>)
    ensures
        record_len(text) <= text.len(),
        forall|i: int| 0 <= i < record_len(text) ==> text[i] != NEWLINE,
        record_len(text) < text.len() ==> text[record_len(text) as int] == NEWLINE,
    decreases text.len(),
{
    if text.len() > 0 && text[0] != NEWLINE {
        let rest = text.skip(1);
        lemma_record_len(rest);
        assert forall|i: int| 0 <= i < record_len(text) implies text[i] != NEWLINE by {
            if i > 0 {
                assert(text[i] == rest[i - 1]);
            }
        }
        if record_len(text) < text.len() {
            assert(text[record_len(text) as int] == rest[record_len(rest) as int]);
        }
    }
}

/// A field ends at the first blank of the text, or with the text, and is
/// not empty when the text begins with a character that is not blank.
pub proof fn lemma_field_len(text: Seq<char>)
    ensures
        field_len(text) <= text.len(),
        forall|i: int| 0 <= i < field_len(text) ==> !is_blank(text[i]),
        field_len(text) < text.len() ==> is_blank(text[field_len(text) as int]),
        text.len() > 0 && !is_blank(text[0]) ==> field_len(text) >= 1,
    decreases text.len(),
{
    if text.len() > 0 && !is_blank(text[0]) {
        let rest = text.skip(1);
        lemma_field_len(rest);
        assert forall|i: int| 0 <= i < field_len(text) implies !is_blank(text[i]) by {
            if i > 0 {
                assert(text[i] == rest[i - 1]);
            }
        }
        if field_len(text) < text.len() {
            assert(text[field_len(text) as int] == rest[field_len(rest) as int]);
        }
    }
}

/// Where the record that begins at `from` ends.
fn record_end(chars: &Vec<char>, from: usize) -> (end: usize)
    requires
        from <= chars.len(),
    ensures
        from <= end <= chars.len(),
        end - from == record_len(chars@.skip(from as int)),
{
    let mut end = from;
    while end < chars.len() && chars[end] != NEWLINE
        invariant
            from <= end <= chars.len(),
            record_len(chars@.skip(from as int)) == (end - from) + record_len(
                chars@.skip(end as int),
            ),
        decreases chars.len() - end,
    {
        assert(chars@.skip(end as int).skip(1) == chars@.skip(end + 1));
        end += 1;
    }
    end
}

/// Where the field that begins at `from` ends, in the record that ends at
/// `to`.
fn field_end(chars: &Vec<char>, from: usize, to: usize) -> (end: usize)
    requires
        from <= to <= chars.len(),
    ensures
        from <= end <= to,
        end - from == field_len(chars@.subrange(from as int, to as int)),
{
    let mut end = from;
    while end < to && chars[end] != ' ' && chars[end] != '\t'
        invariant
            from <= end <= to <= chars.len(),
            field_len(chars@.subrange(from as int, to as int)) == (end - from) + field_len(
                chars@.subrange(end as int, to as int),
            ),
        decreases to - end,
    {
        assert(chars@.subrange(end as int, to as int).skip(1) == chars@.subrange(
            end + 1,
            to as int,
        ));
        end += 1;
    }
    end
}

/// The fields of the record `chars[from..to]`, each as the range of
/// positions that it fills.
fn field_ranges(chars: &Vec<char>, from: usize, to: usize) -> (ranges: Vec<(usize, usize)>)
    requires
        from <= to <= chars.len(),
    ensures
        ranges.len() == fields(chars@.subrange(from as int, to as int)).len(),
        forall|i: int|
            0 <= i < ranges.len() ==> {
                &&& from <= (#[trigger] ranges[i]).0 <= ranges[i].1 <= to
                &&& chars@.subrange(ranges[i].0 as int, ranges[i].1 as int) == fields(
                    chars@.subrange(from as int, to as int),
                )[i]
            },
{
    let ghost record = chars@.subrange(from as int, to as int);
    let ghost mut found: Seq<Seq<char>> = Seq::empty();
    let mut ranges: Vec<(usize, usize)> = Vec::new();
    let mut pos = from;
    while pos < to
        invariant
            from <= pos <= to <= chars.len(),
            record == chars@.subrange(from as int, to as int),
            fields(record) == found + fields(chars@.subrange(pos as int, to as int)),
            ranges.len() == found.len(),
            forall|i: int|
                0 <= i < ranges.len() ==> {
                    &&& from <= (#[trigger] ranges[i]).0 <= ranges[i].1 <= to
                    &&& chars@.subrange(ranges[i].0 as int, ranges[i].1 as int) == found[i]
                },
        decreases to - pos,
    {
        let ghost rest = chars@.subrange(pos as int, to as int);
        if chars[pos] == ' ' || chars[pos] == '\t' {
            assert(rest.skip(1) == chars@.subrange(pos + 1, to as int));
            pos += 1;
        } else {
            let end = field_end(chars, pos, to);
            proof {
                lemma_field_len(rest);
                let field = chars@.subrange(pos as int, end as int);
                assert(rest.take(end - pos) == field);
                assert(rest.skip(end - pos) == chars@.subrange(end as int, to as int));
                assert(found + (seq![field] + fields(rest.skip(end - pos))) == found.push(field)
                    + fields(rest.skip(end - pos)));
                found = found.push(field);
            }
            ranges.push((pos, end));
            pos = end;
        }
    }
    assert(fields(chars@.subrange(pos as int, to as int)) == Seq::<Seq<char>>::empty());
    assert(found + Seq::<Seq<char>>::empty() == found);
    ranges
}

/// The range of positions of the library that the record `chars[from..to]`
/// names, if it names one.
fn record_path_range(chars: &Vec<char>, from: usize, to: usize) -> (range: Option<(usize, usize)>)
    requires
        from <= to <= chars.len(),
    ensures
        match range {
            Some((start, end)) => {
                &&& from <= start <= end <= to
                &&& record_path(chars@.subrange(from as int, to as int)) == Some(
                    chars@.subrange(start as int, end as int),
                )
            },
            None => record_path(chars@.subrange(from as int, to as int)) is None,
        },
{
    let ranges = field_ranges(chars, from, to);
    let chosen = if ranges.len() == 4 {
        ranges[2]
    } else if ranges.len() == 2 {
        ranges[0]
    } else {
        return None;
    };
    let (start, end) = chosen;
    assert(chars@.subrange(start as int, end as int).len() == end - start);
    if start < end && chars[start] == SEPARATOR {
        assert(chars@.subrange(start as int, end as int)[0] == chars@[start as int]);
        Some((start, end))
    } else {
        if start < end {
            assert(chars@.subrange(start as int, end as int)[0] == chars@[start as int]);
        }
        None
    }
}

/// The libraries that the report of the loader-inspection tool names, in the
/// order of the report.
pub fn list_dependencies(report: &str) -> (paths: Vec<String>)
    ensures
        paths.deep_view() == dependencies(report@),
{
    let chars = chars_of(report);
    let mut paths: Vec<String> = Vec::new();
    let mut pos: usize = 0;
    assert(chars@.skip(0) == chars@);
    assert(paths.deep_view() == Seq::<Seq<char>>::empty());
    assert(Seq::<Seq<char>>::empty() + dependencies(report@) == dependencies(report@));
    while pos < chars.len()
        invariant
            pos <= chars.len(),
            chars@ == report@,
            dependencies(report@) == paths.deep_view() + dependencies(chars@.skip(pos as int)),
        decreases chars.len() - pos,
    {
        let ghost rest = chars@.skip(pos as int);
        let ghost before = paths.deep_view();
        let end = record_end(&chars, pos);
        assert(rest.take(end - pos) == chars@.subrange(pos as int, end as int));
        let ghost named: Seq<Seq<char>>;
        match record_path_range(&chars, pos, end) {
            Some((start, stop)) => {
                let path = report.substring_char(start, stop).to_owned();
                paths.push(path);
                proof {
                    named = seq![path@];
                    assert(paths.deep_view() == before + named);
                }
            },
            None => {
                proof {
                    named = Seq::empty();
                    assert(paths.deep_view() == before + named);
                }
            },
        }
        if end < chars.len() {
            assert(rest.skip(end - pos + 1) == chars@.skip(end + 1));
            assert(before + (named + dependencies(rest.skip(end - pos + 1))) == (before + named)
                + dependencies(rest.skip(end - pos + 1)));
            pos = end + 1;
        } else {
            assert(before + named == (before + named) + dependencies(chars@.skip(end as int)));
            pos = end;
        }
    }
    assert(paths.deep_view() + Seq::<Seq<char>>::empty() == paths.deep_view());
    paths
}

/// The libraries that a run of the loader-inspection tool names.
///
/// `exit_ok` says whether the tool ended with success, `report` is its
/// output where that is valid text. A tool that failed is reported as such
/// whatever it printed; after that, output that is no text.
pub fn dependencies_of_run(exit_ok: bool, report: Option<&str>) -> (listed: Result<
    Vec<String>,
    ListerFault,
>)
    ensures
        listed is Ok <==> exit_ok && report is Some,
        listed matches Ok(paths) ==> paths.deep_view() == dependencies(report->0@),
        listed matches Err(fault) ==> fault == (if exit_ok {
            ListerFault::NotText
        } else {
            ListerFault::ToolFailed
        }),
{
    if !exit_ok {
        return Err(ListerFault::ToolFailed);
    }
    match report {
        Some(text) => Ok(list_dependencies(text)),
        None => Err(ListerFault::NotText),
    }
}

} // verus!
