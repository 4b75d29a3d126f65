//! Discovery of the processes that listen on the monitored ports, and the
//! re-checks made at kill time.
use vstd::prelude::*;
use std::collections::HashMap;
use crate::process::{ProcessInfo, ProcessView, views};
use crate::ignore::{IgnoreSet, IgnoreView, kept, filter};
use crate::listing::{listing_records, parse_listing, listing_ports, parse_listing_ports};
use crate::text::{decimal_digits, push_decimal, push_char, is_space, chars_of, string_of, char_is_space};

verus! {

/// Up to this many ports are named one by one to the listing tool; more are
/// given as the span from the smallest to the largest.
pub const MAX_LISTED_PORTS: usize = 10;

pub open spec fn seq_min(s: Seq<u16>) -> u16
    decreases s.len(),
{
    if s.len() <= 1 {
        s[0]
    } else if s.last() < seq_min(s.drop_last()) {
        s.last()
    } else {
        seq_min(s.drop_last())
    }
}

pub open spec fn seq_max(s: Seq<u16>) -> u16
    decreases s.len(),
{
    if s.len() <= 1 {
        s[0]
    } else if s.last() > seq_max(s.drop_last()) {
        s.last()
    } else {
        seq_max(s.drop_last())
    }
}

/// The ports in decimal, separated by commas.
pub open spec fn comma_joined(ports: Seq<u16>) -> Seq<char>
    decreases ports.len(),
{
    if ports.len() == 0 {
        Seq::empty()
    } else if ports.len() == 1 {
        decimal_digits(ports[0] as nat)
    } else {
        comma_joined(ports.drop_last()) + seq![','] + decimal_digits(ports.last() as nat)
    }
}

/// The address the listing tool is restricted to: `:p1,p2,...` for a few
/// ports, `:min-max` for many, and nothing at all (every port) for none.
pub open spec fn port_selector(ports: Seq<u16>) -> Seq<char> {
    if ports.len() == 0 {
        Seq::empty()
    } else if ports.len() <= MAX_LISTED_PORTS {
        seq![':'] + comma_joined(ports)
    } else {
        seq![':'] + decimal_digits(seq_min(ports) as nat) + seq!['-'] + decimal_digits(
            seq_max(ports) as nat,
        )
    }
}

/// The arguments of one run of the listing tool over `ports`: internet
/// sockets at the selected address, in TCP LISTEN state, numeric ports and
/// hosts.
pub open spec fn listing_arguments(ports: Seq<u16>) -> Seq<Seq<char>> {
    let tail = seq!["-sTCP:LISTEN"@, "-P"@, "-n"@];
    if ports.len() == 0 {
        seq!["-i"@] + tail
    } else {
        seq!["-i"@, port_selector(ports)] + tail
    }
}

pub open spec fn strings_view(v: Seq<String>) -> Seq<Seq<char>> {
    v.map_values(|s: String| s@)
}

/// The selector of `port_selector`, without the leading `:`.
fn push_port_span(s: &mut String, ports: &Vec<u16>)
    requires
        ports.len() > 0,
    ensures
        final(s)@ == old(s)@ + (if ports.len() <= MAX_LISTED_PORTS {
            comma_joined(ports@)
        } else {
            decimal_digits(seq_min(ports@) as nat) + seq!['-'] + decimal_digits(
                seq_max(ports@) as nat,
            )
        }),
{
    if ports.len() <= MAX_LISTED_PORTS {
        let ghost start = s@;
        push_decimal(s, ports[0]);
        assert(ports@.take(1).drop_last() =~= Seq::<u16>::empty());
        assert(s@ =~= start + comma_joined(ports@.take(1)));
        let mut i: usize = 1;
        while i < ports.len()
            invariant
                1 <= i <= ports.len(),
                s@ == start + comma_joined(ports@.take(i as int)),
            decreases ports.len() - i,
        {
            push_char(s, ',');
            push_decimal(s, ports[i]);
            assert(ports@.take(i + 1).drop_last() =~= ports@.take(i as int));
            assert(s@ =~= start + comma_joined(ports@.take(i + 1)));
            i = i + 1;
        }
        assert(ports@.take(ports.len() as int) =~= ports@);
    } else {
        let mut lo = ports[0];
        let mut hi = ports[0];
        let mut i: usize = 1;
        assert(ports@.take(1).len() == 1);
        while i < ports.len()
            invariant
                1 <= i <= ports.len(),
                lo == seq_min(ports@.take(i as int)),
                hi == seq_max(ports@.take(i as int)),
            decreases ports.len() - i,
        {
            assert(ports@.take(i + 1).drop_last() =~= ports@.take(i as int));
            if ports[i] < lo {
                lo = ports[i];
            }
            if ports[i] > hi {
                hi = ports[i];
            }
            i = i + 1;
        }
        assert(ports@.take(ports.len() as int) =~= ports@);
        let ghost start = s@;
        push_decimal(s, lo);
        push_char(s, '-');
        push_decimal(s, hi);
        assert(s@ =~= start + (decimal_digits(lo as nat) + seq!['-'] + decimal_digits(hi as nat)));
    }
}

/// The arguments for the listing tool that select the listening sockets on
/// `ports` (every port when `ports` is empty).
pub fn listing_args(ports: &Vec<u16>) -> (r: Vec<String>)
    ensures
        strings_view(r@) == listing_arguments(ports@),
{
    let mut args: Vec<String> = Vec::new();
    let flag = "-i".to_owned();
    assert(flag@ == "-i"@);
    args.push(flag);
    if ports.len() > 0 {
        let mut sel = String::new();
        push_char(&mut sel, ':');
        push_port_span(&mut sel, ports);
        assert(sel@ =~= port_selector(ports@));
        args.push(sel);
    }
    args.push("-sTCP:LISTEN".to_owned());
    args.push("-P".to_owned());
    args.push("-n".to_owned());
    assert(strings_view(args@) =~= listing_arguments(ports@));
    args
}

/// One snapshot: the records keyed by port, a later record for a port
/// replacing an earlier one.
pub open spec fn snapshot_of(records: Seq<ProcessView>) -> Map<u16, ProcessView>
    decreases records.len(),
{
    if records.len() == 0 {
        Map::empty()
    } else {
        snapshot_of(records.drop_last()).insert(records.last().port, records.last())
    }
}

pub open spec fn map_view(m: Map<u16, ProcessInfo>) -> Map<u16, ProcessView> {
    m.map_values(|p: ProcessInfo| p@)
}

/// Keys the records by port; of two records with one port the later stays.
pub fn snapshot(records: Vec<ProcessInfo>) -> (r: HashMap<u16, ProcessInfo>)
    ensures
        map_view(r@) == snapshot_of(views(records@)),
{
    let mut m: HashMap<u16, ProcessInfo> = HashMap::new();
    for p in it: records.into_iter()
        invariant
            it.seq() == records@,
            map_view(m@) == snapshot_of(views(it.seq().take(it.index() as int))),
    {
        let ghost done = it.seq().take(it.index() as int);
        let ghost next = it.seq().take(it.index() + 1);
        assert(views(next).drop_last() =~= views(done));
        let ghost before = m@;
        let port = p.port;
        m.insert(port, p);
        assert(map_view(m@) =~= map_view(before).insert(port, p@));
    }
    proof {
        assert(records@.take(records@.len() as int) =~= records@);
    }
    m
}

/// The snapshot that the listing tool's `output` gives once `ignore` has
/// been applied. When the tool could not be run (`None`), the snapshot is
/// empty: a failed discovery shows as no processes, never as an error.
pub fn discover(output: Option<&str>, ignore: &IgnoreSet) -> (r: HashMap<u16, ProcessInfo>)
    ensures
        map_view(r@) == match output {
            Some(o) => snapshot_of(kept(listing_records(o@), ignore@)),
            None => Map::empty(),
        },
{
    match output {
        Some(o) => snapshot(filter(parse_listing(o), ignore)),
        None => {
            let r = HashMap::new();
            assert(map_view(r@) =~= Map::empty());
            r
        },
    }
}

/// The process ids to terminate for a kill of everything on the monitored
/// ports: those of the records in `output` that `ignore` keeps, in order.
pub fn kill_all_targets(output: &str, ignore: &IgnoreSet) -> (r: Vec<i32>)
    ensures
        r@ == kept(listing_records(output@), ignore@).map_values(|p: ProcessView| p.pid),
{
    let records = filter(parse_listing(output), ignore);
    let mut pids: Vec<i32> = Vec::new();
    let mut i: usize = 0;
    while i < records.len()
        invariant
            i <= records.len(),
            views(records@) == kept(listing_records(output@), ignore@),
            pids@ == views(records@).take(i as int).map_values(|p: ProcessView| p.pid),
        decreases records.len() - i,
    {
        pids.push(records[i].pid);
        assert(views(records@).take(i + 1).map_values(|p: ProcessView| p.pid) =~= views(
            records@,
        ).take(i as int).map_values(|p: ProcessView| p.pid).push(records@[i as int].pid));
        i = i + 1;
    }
    assert(views(records@).take(records.len() as int) =~= views(records@));
    pids
}

/// `s` without its leading whitespace.
pub open spec fn trim_start(s: Seq<char>) -> Seq<char>
    decreases s.len(),
{
    if s.len() > 0 && is_space(s[0]) {
        trim_start(s.drop_first())
    } else {
        s
    }
}

/// `s` without its trailing whitespace.
pub open spec fn trim_end(s: Seq<char>) -> Seq<char>
    decreases s.len(),
{
    if s.len() > 0 && is_space(s.last()) {
        trim_end(s.drop_last())
    } else {
        s
    }
}

/// `s` without leading and trailing whitespace, as `str::trim` leaves it.
pub open spec fn trimmed(s: Seq<char>) -> Seq<char> {
    trim_end(trim_start(s))
}

/// `text` without leading and trailing whitespace.
pub fn trim_text(text: &str) -> (r: String)
    ensures
        r@ == trimmed(text@),
{
    let chars = chars_of(text);
    let n = chars.len();
    let mut a: usize = 0;
    assert(chars@.subrange(0, n as int) =~= chars@);
    while a < n && char_is_space(chars[a])
        invariant
            a <= n == chars.len(),
            chars@ == text@,
            trim_start(chars@) == trim_start(chars@.subrange(a as int, n as int)),
        decreases n - a,
    {
        assert(chars@.subrange(a as int, n as int).drop_first() =~= chars@.subrange(
            a + 1,
            n as int,
        ));
        a = a + 1;
    }
    assert(trim_start(chars@) == chars@.subrange(a as int, n as int));
    let mut b: usize = n;
    while b > a && char_is_space(chars[b - 1])
        invariant
            a <= b <= n == chars.len(),
            trim_end(chars@.subrange(a as int, n as int)) == trim_end(
                chars@.subrange(a as int, b as int),
            ),
        decreases b,
    {
        assert(chars@.subrange(a as int, b as int).drop_last() =~= chars@.subrange(
            a as int,
            b - 1,
        ));
        b = b - 1;
    }
    string_of(&chars, a, b)
}

/// Whether the listing output `o` names a port of `ports`.
pub open spec fn names_ignored_port(o: Seq<char>, ports: Set<u16>) -> bool {
    exists|i: int| 0 <= i < listing_ports(o).len() && ports.contains(#[trigger] listing_ports(o)[i])
}

pub open spec fn text_of(o: Option<&str>) -> Option<Seq<char>> {
    match o {
        Some(s) => Some(s@),
        None => None,
    }
}

/// Whether a single process may be terminated, judged at kill time:
/// `name_output` is what the process-info tool printed for its name, and
/// `ports_output` what the listing tool printed for its sockets (`None` where
/// the tool could not be run, which leaves that check out). The process is
/// left alone when its trimmed name, or any port it listens on, is ignored.
pub open spec fn single_kill_permitted(
    name_output: Option<Seq<char>>,
    ports_output: Option<Seq<char>>,
    ignore: IgnoreView,
) -> bool {
    let name_ignored = match name_output {
        Some(o) => ignore.process_names.contains(trimmed(o)),
        None => false,
    };
    let port_ignored = match ports_output {
        Some(o) => names_ignored_port(o, ignore.ports),
        None => false,
    };
    !name_ignored && !port_ignored
}

/// Re-checks one process against the ignore policy before it is terminated.
pub fn single_kill_allowed(
    name_output: Option<&str>,
    ports_output: Option<&str>,
    ignore: &IgnoreSet,
) -> (r: bool)
    ensures
        r == single_kill_permitted(text_of(name_output), text_of(ports_output), ignore@),
{
    match name_output {
        Some(o) => {
            let name = trim_text(o);
            if ignore.process_names.contains(&name) {
                return false;
            }
        },
        None => {},
    }
    match ports_output {
        Some(o) => {
            let ports = parse_listing_ports(o);
            let mut i: usize = 0;
            while i < ports.len()
                invariant
                    i <= ports.len(),
                    ports@ == listing_ports(o@),
                    ports_output == Some(o),
                    match text_of(name_output) {
                        Some(n) => !ignore@.process_names.contains(trimmed(n)),
                        None => true,
                    },
                    forall|j: int| 0 <= j < i ==> !ignore@.ports.contains(#[trigger] ports@[j]),
                decreases ports.len() - i,
            {
                if ignore.ports.contains(&ports[i]) {
                    assert(ignore@.ports.contains(listing_ports(o@)[i as int]));
                    assert(names_ignored_port(o@, ignore@.ports));
                    return false;
                }
                i = i + 1;
            }
        },
        None => {},
    }
    true
}

} // verus!
