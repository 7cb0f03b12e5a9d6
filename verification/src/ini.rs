//! The section/key-value text format of the credential file: a line-oriented
//! grammar with `[section]` headers, `key=value` pairs, blank lines and
//! `#`/`;` comments. The spec functions here are the single definition of the
//! format; parsing and rendering are proved against them.

use vstd::prelude::*;

use crate::text::{
    find_byte, find_from, has_byte, is_space, is_space_byte, lemma_find_from, lemma_find_from_is,
    lemma_has_byte, lemma_trim_keeps_absence, lemma_trim_noop, lemma_trim_props, spec_trim,
};
use crate::text::{find_byte_in, sub_vec, trim};

verus! {

/// The file's lines: split at every line feed; the final line has no
/// terminator. The empty file is one empty line.
pub open spec fn split_lines(s: Seq<u8>) -> Seq<Seq<u8>>
    decreases s.len(),
{
    let e = find_byte(s, 10);
    if 0 <= e < s.len() {
        seq![s.subrange(0, e)] + split_lines(s.subrange(e + 1, s.len() as int))
    } else {
        seq![s]
    }
}

/// What one line means.
pub enum SpecLine {
    /// Nothing: empty, whitespace only, or a `#`/`;` comment.
    Blank,
    /// `[name]`, opening the named section.
    Section { name: Seq<u8> },
    /// `key=value`, with key and value trimmed; the value may be empty.
    Pair { key: Seq<u8>, value: Seq<u8> },
    /// Not section/key-value text.
    Bad,
}

/// Classification of a single line, after trimming surrounding whitespace:
/// blank or comment, a `[section]` header (name trimmed), a `key=value` pair
/// split at the first `=`, and anything else is a fault.
pub open spec fn classify(line: Seq<u8>) -> SpecLine {
    let t = spec_trim(line);
    if t.len() == 0 {
        SpecLine::Blank
    } else if t[0] == 35 || t[0] == 59 {
        SpecLine::Blank
    } else if t[0] == 91 {
        if t.len() >= 2 && t[t.len() - 1] == 93 {
            SpecLine::Section { name: spec_trim(t.subrange(1, t.len() - 1)) }
        } else {
            SpecLine::Bad
        }
    } else {
        let e = find_byte(t, 61);
        if 0 <= e < t.len() {
            SpecLine::Pair {
                key: spec_trim(t.subrange(0, e)),
                value: spec_trim(t.subrange(e + 1, t.len() as int)),
            }
        } else {
            SpecLine::Bad
        }
    }
}

/// Every line from `i` on is section/key-value text.
pub open spec fn lines_ok_from(lines: Seq<Seq<u8>>, i: int) -> bool
    decreases lines.len() - i,
{
    if i < 0 || i >= lines.len() {
        true
    } else {
        !(classify(lines[i]) is Bad) && lines_ok_from(lines, i + 1)
    }
}

pub open spec fn lines_ok(lines: Seq<Seq<u8>>) -> bool {
    lines_ok_from(lines, 0)
}

/// One left-to-right pass from line `i` with the scan state so far: whether
/// the target section is open, and the latest value bound to `key` in it.
/// A later binding of the same key overrides an earlier one.
pub open spec fn scan_value(
    lines: Seq<Seq<u8>>,
    i: int,
    in_section: bool,
    found: Option<Seq<u8>>,
    section: Seq<u8>,
    key: Seq<u8>,
) -> Option<Seq<u8>>
    decreases lines.len() - i,
{
    if i < 0 || i >= lines.len() {
        found
    } else {
        match classify(lines[i]) {
            SpecLine::Section { name } => scan_value(
                lines,
                i + 1,
                name == section,
                found,
                section,
                key,
            ),
            SpecLine::Pair { key: k, value: v } => scan_value(
                lines,
                i + 1,
                in_section,
                if in_section && k == key {
                    Some(v)
                } else {
                    found
                },
                section,
                key,
            ),
            _ => scan_value(lines, i + 1, in_section, found, section, key),
        }
    }
}

/// The value bound to `key` in `section`, if any.
pub open spec fn ini_lookup(lines: Seq<Seq<u8>>, section: Seq<u8>, key: Seq<u8>) -> Option<
    Seq<u8>,
> {
    scan_value(lines, 0, false, None, section, key)
}

/// A value that the format carries through a render/parse round trip
/// unchanged: non-empty, free of line feeds, with clean ends.
pub open spec fn clean_value(v: Seq<u8>) -> bool {
    v.len() > 0 && !has_byte(v, 10) && !is_space(v[0]) && !is_space(v[v.len() - 1])
}

/// A name fit to stand as a key or section name: clean like a value, free of
/// `=`, and not opening like a header or comment.
pub open spec fn name_ok(s: Seq<u8>) -> bool {
    clean_value(s) && !has_byte(s, 61) && s[0] != 91 && s[0] != 35 && s[0] != 59
}

pub proof fn lemma_split_lines_step(line: Seq<u8>, rest: Seq<u8>)
    requires
        !has_byte(line, 10),
    ensures
        split_lines(line + seq![10u8] + rest) == seq![line] + split_lines(rest),
{
    let s = line + seq![10u8] + rest;
    lemma_find_from(line, 10, 0);
    assert forall|j: int| 0 <= j < line.len() implies s[j] != 10 by {
        assert(s[j] == line[j]);
    }
    assert(s[line.len() as int] == 10);
    lemma_find_from_is(s, 10, 0, line.len() as int);
    assert(s.subrange(0, line.len() as int) =~= line);
    assert(s.subrange(line.len() as int + 1, s.len() as int) =~= rest);
    assert(split_lines(s) == seq![line] + split_lines(rest));
}

/// A sequence without line feeds is a single line.
pub proof fn lemma_split_lines_single(s: Seq<u8>)
    requires
        !has_byte(s, 10),
    ensures
        split_lines(s) == seq![s],
{
    lemma_find_from(s, 10, 0);
}

/// No line of a split holds a line feed.
pub proof fn lemma_split_lines_no_lf(s: Seq<u8>)
    ensures
        forall|i: int|
            0 <= i < split_lines(s).len() ==> !has_byte(#[trigger] split_lines(s)[i], 10),
    decreases s.len(),
{
    lemma_find_from(s, 10, 0);
    let e = find_byte(s, 10);
    if 0 <= e < s.len() {
        let head = s.subrange(0, e);
        let tail = s.subrange(e + 1, s.len() as int);
        lemma_has_byte(head, 10);
        lemma_split_lines_no_lf(tail);
        assert forall|i: int|
            0 <= i < split_lines(s).len() implies !has_byte(
            #[trigger] split_lines(s)[i],
            10,
        ) by {
            if i == 0 {
                assert(split_lines(s)[i] == head);
            } else {
                assert(split_lines(s)[i] == split_lines(tail)[i - 1]);
            }
        }
    } else {
        lemma_has_byte(s, 10);
        assert forall|i: int|
            0 <= i < split_lines(s).len() implies !has_byte(
            #[trigger] split_lines(s)[i],
            10,
        ) by {
            assert(split_lines(s)[i] == s);
        }
    }
}

/// The value of a pair line is clean when it is non-empty: it was cut out of
/// one line and trimmed at both ends.
pub proof fn lemma_pair_value_clean(line: Seq<u8>)
    requires
        !has_byte(line, 10),
        classify(line) is Pair,
    ensures
        classify(line)->Pair_value.len() > 0 ==> clean_value(classify(line)->Pair_value),
{
    let t = spec_trim(line);
    let e = find_byte(t, 61);
    lemma_trim_keeps_absence(line, 10);
    let raw = t.subrange(e + 1, t.len() as int);
    lemma_has_byte(t, 10);
    lemma_has_byte(raw, 10);
    if has_byte(raw, 10) {
        let p = choose|p: int| 0 <= p < raw.len() && raw[p] == 10;
        assert(t[e + 1 + p] == 10);
    }
    lemma_trim_keeps_absence(raw, 10);
    lemma_trim_props(raw);
    assert(classify(line)->Pair_value == spec_trim(raw));
}

/// Any non-empty value the scan turns up is clean, provided no line holds a
/// line feed and the value scanned so far is.
pub proof fn lemma_scan_value_clean(
    lines: Seq<Seq<u8>>,
    i: int,
    in_section: bool,
    found: Option<Seq<u8>>,
    section: Seq<u8>,
    key: Seq<u8>,
)
    requires
        0 <= i <= lines.len(),
        forall|j: int| 0 <= j < lines.len() ==> !has_byte(#[trigger] lines[j], 10),
        found matches Some(v) ==> (v.len() > 0 ==> clean_value(v)),
    ensures
        scan_value(lines, i, in_section, found, section, key) matches Some(v) ==> (v.len() > 0
            ==> clean_value(v)),
    decreases lines.len() - i,
{
    if i < lines.len() {
        match classify(lines[i]) {
            SpecLine::Section { name } => {
                lemma_scan_value_clean(lines, i + 1, name == section, found, section, key);
            },
            SpecLine::Pair { key: k, value: v } => {
                let mid = if in_section && k == key {
                    Some(v)
                } else {
                    found
                };
                lemma_pair_value_clean(lines[i]);
                lemma_scan_value_clean(lines, i + 1, in_section, mid, section, key);
            },
            _ => {
                lemma_scan_value_clean(lines, i + 1, in_section, found, section, key);
            },
        }
    }
}

/// Whatever `ini_lookup` returns on a file's lines is clean when non-empty.
pub proof fn lemma_lookup_value_clean(text: Seq<u8>, section: Seq<u8>, key: Seq<u8>)
    ensures
        ini_lookup(split_lines(text), section, key) matches Some(v) ==> (v.len() > 0
            ==> clean_value(v)),
{
    let lines = split_lines(text);
    lemma_split_lines_no_lf(text);
    lemma_scan_value_clean(lines, 0, false, None, section, key);
}

/// Classification of a rendered `[name]` header line.
pub proof fn lemma_classify_header(name: Seq<u8>)
    requires
        name.len() > 0,
        !is_space(name[0]),
        !is_space(name[name.len() - 1]),
    ensures
        classify(seq![91u8] + name + seq![93u8]) == (SpecLine::Section { name }),
{
    let line = seq![91u8] + name + seq![93u8];
    assert(line.len() == name.len() + 2);
    assert(line[0] == 91 && !is_space(line[0]));
    assert(line[line.len() - 1] == 93 && !is_space(line[line.len() - 1]));
    lemma_trim_noop(line);
    let t = spec_trim(line);
    assert(t == line);
    assert(t.subrange(1, t.len() - 1) =~= name);
    lemma_trim_noop(name);
}

/// Classification of a rendered `key=value` line. The empty value is allowed.
pub proof fn lemma_classify_pair(key: Seq<u8>, value: Seq<u8>)
    requires
        name_ok(key),
        value.len() > 0 ==> !is_space(value[0]) && !is_space(value[value.len() - 1]),
    ensures
        classify(key + seq![61u8] + value) == (SpecLine::Pair { key, value }),
{
    let line = key + seq![61u8] + value;
    assert(line[0] == key[0]);
    if value.len() > 0 {
        assert(line[line.len() - 1] == value[value.len() - 1]);
    } else {
        assert(line[line.len() - 1] == 61);
        assert(!is_space(61u8));
    }
    lemma_trim_noop(line);
    let t = spec_trim(line);
    assert(t == line);
    lemma_find_from(key, 61, 0);
    assert forall|j: int| 0 <= j < key.len() implies line[j] != 61 by {
        assert(line[j] == key[j]);
    }
    assert(line[key.len() as int] == 61);
    lemma_find_from_is(line, 61, 0, key.len() as int);
    assert(t.subrange(0, key.len() as int) =~= key);
    assert(t.subrange(key.len() as int + 1, t.len() as int) =~= value);
    lemma_trim_noop(key);
    if value.len() > 0 {
        lemma_trim_noop(value);
    } else {
        assert(spec_trim(value) =~= value);
    }
}

/// The empty line is blank.
pub proof fn lemma_classify_empty()
    ensures
        classify(Seq::<u8>::empty()) == SpecLine::Blank,
{
    assert(spec_trim(Seq::<u8>::empty()) =~= Seq::<u8>::empty());
}

/// The executable mirror of `SpecLine`.
pub enum Line {
    Blank,
    Section(Vec<u8>),
    Pair(Vec<u8>, Vec<u8>),
    Bad,
}

impl View for Line {
    type V = SpecLine;

    open spec fn view(&self) -> SpecLine {
        match self {
            Line::Blank => SpecLine::Blank,
            Line::Section(name) => SpecLine::Section { name: name@ },
            Line::Pair(k, v) => SpecLine::Pair { key: k@, value: v@ },
            Line::Bad => SpecLine::Bad,
        }
    }
}

/// Splits the file into its lines.
pub fn split_lines_exec(text: &Vec<u8>) -> (r: Vec<Vec<u8>>)
    ensures
        r.deep_view() == split_lines(text@),
{
    let n = text.len();
    let mut out: Vec<Vec<u8>> = Vec::new();
    let mut cur: Vec<u8> = Vec::new();
    let mut i: usize = 0;
    proof {
        lemma_has_byte(cur@, 10);
        assert(cur@ + text@.subrange(0, n as int) =~= text@);
        assert(out.deep_view() =~~= Seq::<Seq<u8>>::empty());
        assert(out.deep_view() + split_lines(text@) =~= split_lines(text@));
    }
    while i < n
        invariant
            0 <= i <= n,
            n == text@.len(),
            !has_byte(cur@, 10),
            split_lines(text@) == out.deep_view() + split_lines(
                cur@ + text@.subrange(i as int, n as int),
            ),
        decreases n - i,
    {
        let c = text[i];
        if c == 10 {
            proof {
                let rest = text@.subrange(i + 1, n as int);
                assert(cur@ + text@.subrange(i as int, n as int) =~= cur@ + seq![10u8] + rest);
                lemma_split_lines_step(cur@, rest);
            }
            let ghost cur_snap = cur@;
            let ghost out_snap = out.deep_view();
            out.push(cur);
            proof {
                assert(out.deep_view() =~~= out_snap.push(cur_snap));
                assert(out_snap.push(cur_snap) =~~= out_snap + seq![cur_snap]);
            }
            cur = Vec::new();
            proof {
                lemma_has_byte(cur@, 10);
                assert(split_lines(text@) == out.deep_view() + split_lines(
                    cur@ + text@.subrange(i + 1, n as int),
                ));
            }
        } else {
            let ghost cur_snap = cur@;
            cur.push(c);
            proof {
                assert(cur@ + text@.subrange(i + 1, n as int) =~= cur_snap + text@.subrange(
                    i as int,
                    n as int,
                ));
                lemma_has_byte(cur@, 10);
                lemma_has_byte(cur_snap, 10);
                if has_byte(cur@, 10) {
                    let p = choose|p: int| 0 <= p < cur@.len() && cur@[p] == 10;
                    assert(p < cur_snap.len());
                    assert(cur_snap[p] == 10);
                }
            }
        }
        i = i + 1;
    }
    proof {
        assert(cur@ + text@.subrange(i as int, n as int) =~= cur@);
        lemma_split_lines_single(cur@);
    }
    let ghost cur_snap = cur@;
    let ghost out_snap = out.deep_view();
    out.push(cur);
    proof {
        assert(out.deep_view() =~~= out_snap.push(cur_snap));
        assert(out_snap + seq![cur_snap] =~~= out_snap.push(cur_snap));
        assert(split_lines(text@) == out.deep_view());
    }
    out
}

/// Classifies one line.
pub fn classify_line(line: &Vec<u8>) -> (r: Line)
    ensures
        r@ == classify(line@),
{
    let t = trim(line);
    if t.len() == 0 {
        return Line::Blank;
    }
    let c0 = t[0];
    if c0 == 35 || c0 == 59 {
        return Line::Blank;
    }
    if c0 == 91 {
        if t.len() >= 2 && t[t.len() - 1] == 93 {
            let inner = sub_vec(&t, 1, t.len() - 1);
            let name = trim(&inner);
            return Line::Section(name);
        }
        return Line::Bad;
    }
    let e = find_byte_in(&t, 61);
    proof {
        lemma_find_from(t@, 61, 0);
    }
    if e < t.len() {
        let kraw = sub_vec(&t, 0, e);
        let vraw = sub_vec(&t, e + 1, t.len());
        let k = trim(&kraw);
        let v = trim(&vraw);
        Line::Pair(k, v)
    } else {
        Line::Bad
    }
}

/// Whether `v` survives a render/parse round trip unchanged.
pub fn is_clean_value(v: &Vec<u8>) -> (r: bool)
    ensures
        r == clean_value(v@),
{
    if v.len() == 0 {
        return false;
    }
    let e = find_byte_in(v, 10);
    proof {
        lemma_find_from(v@, 10, 0);
    }
    if e < v.len() {
        return false;
    }
    !is_space_byte(v[0]) && !is_space_byte(v[v.len() - 1])
}

} // verus!
