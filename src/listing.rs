//! The port-listing tool's side of discovery: the arguments it is run with,
//! and the records read back from its tabular output.
//!
//! Each line of output is split into whitespace-separated columns: column 0
//! is the command name, column 1 the process id, column 8 the local address,
//! whose part after the last `:` is the port. A line is taken only when it has
//! at least nine columns and both numbers parse; any other line (the header
//! among them) is skipped.
use vstd::prelude::*;
use crate::process::{ProcessInfo, ProcessView, views};
use crate::text::{
    words, after_last_colon, parse_i32, parse_u16, spans_locate, chars_of, word_spans,
    after_last_colon_from, parse_i32_in, parse_u16_in, string_of,
};

verus! {

/// The lines of `s`: the pieces between `\n` characters.
pub open spec fn text_lines(s: Seq<char>) -> Seq<Seq<char>>
    decreases s.len(),
{
    if s.len() == 0 {
        seq![Seq::empty()]
    } else {
        let before = text_lines(s.drop_last());
        if s.last() == '\n' {
            before.push(Seq::empty())
        } else {
            before.drop_last().push(before.last().push(s.last()))
        }
    }
}

/// The port of the local address column of a line, when the line has enough
/// columns and the port parses.
pub open spec fn line_port(line: Seq<char>) -> Option<u16> {
    let w = words(line);
    if w.len() >= 9 {
        parse_u16(after_last_colon(w[8]))
    } else {
        None
    }
}

/// The record that one line of output describes, if any.
pub open spec fn line_record(line: Seq<char>) -> Option<ProcessView> {
    let w = words(line);
    match (line_port(line), parse_i32(if w.len() >= 2 { w[1] } else { Seq::empty() })) {
        (Some(port), Some(pid)) => Some(
            ProcessView {
                pid,
                port,
                command: w[0],
                name: w[0],
                container_id: None,
                container_name: None,
            },
        ),
        _ => None,
    }
}

/// The records of a sequence of lines, in order.
pub open spec fn lines_records(lines: Seq<Seq<char>>) -> Seq<ProcessView>
    decreases lines.len(),
{
    if lines.len() == 0 {
        Seq::empty()
    } else {
        let before = lines_records(lines.drop_last());
        match line_record(lines.last()) {
            Some(r) => before.push(r),
            None => before,
        }
    }
}

/// The records that the output `text` describes, in the order of its lines.
pub open spec fn listing_records(text: Seq<char>) -> Seq<ProcessView> {
    lines_records(text_lines(text))
}

/// The record on the line `chars[start..end]`, if it holds one.
fn parse_line(chars: &Vec<char>, start: usize, end: usize) -> (r: Option<ProcessInfo>)
    requires
        start <= end <= chars.len(),
    ensures
        match r {
            Some(p) => line_record(chars@.subrange(start as int, end as int)) == Some(p@),
            None => line_record(chars@.subrange(start as int, end as int)) is None,
        },
{
    let spans = word_spans(chars, start, end);
    if spans.len() < 9 {
        return None;
    }
    let colon = after_last_colon_from(chars, spans[8].0, spans[8].1);
    let port = parse_u16_in(chars, colon, spans[8].1);
    let pid = parse_i32_in(chars, spans[1].0, spans[1].1);
    match (port, pid) {
        (Some(port), Some(pid)) => {
            let command = string_of(chars, spans[0].0, spans[0].1);
            let name = string_of(chars, spans[0].0, spans[0].1);
            Some(
                ProcessInfo {
                    pid,
                    port,
                    command,
                    name,
                    container_id: None,
                    container_name: None,
                },
            )
        },
        _ => None,
    }
}

/// The lines of `chars`, as index ranges into it.
pub fn line_spans(chars: &Vec<char>) -> (r: Vec<(usize, usize)>)
    ensures
        spans_locate(chars@, r@, text_lines(chars@), 0, chars.len() as int),
{
    let mut spans: Vec<(usize, usize)> = Vec::new();
    let mut start: usize = 0;
    let mut i: usize = 0;
    while i < chars.len()
        invariant
            start <= i <= chars.len(),
            text_lines(chars@.take(i as int)).len() > 0,
            text_lines(chars@.take(i as int)).last() == chars@.subrange(start as int, i as int),
            spans_locate(
                chars@,
                spans@,
                text_lines(chars@.take(i as int)).drop_last(),
                0,
                start as int,
            ),
        decreases chars.len() - i,
    {
        let ghost before = text_lines(chars@.take(i as int));
        assert(chars@.take(i + 1).drop_last() =~= chars@.take(i as int));
        if chars[i] == '\n' {
            spans.push((start, i));
            assert(text_lines(chars@.take(i + 1)).drop_last() == before);
            assert(before =~= before.drop_last().push(before.last()));
            start = i + 1;
            assert(chars@.subrange(start as int, i + 1) =~= Seq::<char>::empty());
        } else {
            assert(text_lines(chars@.take(i + 1)).drop_last() =~= before.drop_last());
            assert(chars@.subrange(start as int, i + 1) =~= chars@.subrange(
                start as int,
                i as int,
            ).push(chars@[i as int]));
        }
        i = i + 1;
    }
    let ghost all = text_lines(chars@);
    assert(chars@.take(chars.len() as int) =~= chars@);
    assert(all =~= all.drop_last().push(all.last()));
    spans.push((start, chars.len()));
    spans
}

/// The port on the line `chars[start..end]`, if it names one.
pub fn line_port_in(chars: &Vec<char>, start: usize, end: usize) -> (r: Option<u16>)
    requires
        start <= end <= chars.len(),
    ensures
        r == line_port(chars@.subrange(start as int, end as int)),
{
    let spans = word_spans(chars, start, end);
    if spans.len() < 9 {
        return None;
    }
    let colon = after_last_colon_from(chars, spans[8].0, spans[8].1);
    parse_u16_in(chars, colon, spans[8].1)
}

/// Reads the records out of the listing tool's output, in the order of its
/// lines. Lines that do not describe a listening socket are skipped.
pub fn parse_listing(text: &str) -> (r: Vec<ProcessInfo>)
    ensures
        views(r@) == listing_records(text@),
{
    let chars = chars_of(text);
    let lines = line_spans(&chars);
    let ghost all = text_lines(chars@);
    let mut records: Vec<ProcessInfo> = Vec::new();
    let mut k: usize = 0;
    while k < lines.len()
        invariant
            k <= lines.len(),
            chars@ == text@,
            all == text_lines(chars@),
            spans_locate(chars@, lines@, all, 0, chars.len() as int),
            views(records@) == lines_records(all.take(k as int)),
        decreases lines.len() - k,
    {
        let found = parse_line(&chars, lines[k].0, lines[k].1);
        assert(all.take(k + 1).drop_last() =~= all.take(k as int));
        let ghost earlier = records@;
        match found {
            Some(p) => {
                records.push(p);
                assert(views(records@) =~= views(earlier).push(p@));
            },
            None => {},
        }
        k = k + 1;
    }
    assert(all.take(lines.len() as int) =~= all);
    records
}

/// The ports of a sequence of lines, in order, for the lines that name one.
pub open spec fn lines_ports(lines: Seq<Seq<char>>) -> Seq<u16>
    decreases lines.len(),
{
    if lines.len() == 0 {
        Seq::empty()
    } else {
        let before = lines_ports(lines.drop_last());
        match line_port(lines.last()) {
            Some(p) => before.push(p),
            None => before,
        }
    }
}

/// The ports that the listing tool's output `text` names, line by line.
pub open spec fn listing_ports(text: Seq<char>) -> Seq<u16> {
    lines_ports(text_lines(text))
}

/// Reads the ports out of the listing tool's output, in the order of its
/// lines; the process id column is not looked at.
pub fn parse_listing_ports(text: &str) -> (r: Vec<u16>)
    ensures
        r@ == listing_ports(text@),
{
    let chars = chars_of(text);
    let lines = line_spans(&chars);
    let ghost all = text_lines(chars@);
    let mut ports: Vec<u16> = Vec::new();
    let mut k: usize = 0;
    while k < lines.len()
        invariant
            k <= lines.len(),
            chars@ == text@,
            all == text_lines(chars@),
            spans_locate(chars@, lines@, all, 0, chars.len() as int),
            ports@ == lines_ports(all.take(k as int)),
        decreases lines.len() - k,
    {
        let found = line_port_in(&chars, lines[k].0, lines[k].1);
        assert(all.take(k + 1).drop_last() =~= all.take(k as int));
        match found {
            Some(p) => {
                ports.push(p);
            },
            None => {},
        }
        k = k + 1;
    }
    assert(all.take(lines.len() as int) =~= all);
    ports
}

} // verus!
