//! The monitoring configuration: which ports to watch, what to leave alone,
//! and the display settings.
use vstd::prelude::*;
use vstd::string::StringExecFns;
use std::collections::HashSet;
use crate::discovery::strings_view;
use crate::ignore::{IgnoreSet, NameSet};
use crate::text::{decimal_digits, push_char, push_decimal};

verus! {

#[derive(Debug, Clone)]
pub struct Config {
    pub discovery: DiscoveryConfig,
    pub ports: PortsConfig,
    pub ignore: IgnoreConfig,
    pub app: AppConfig,
}

#[derive(Debug, Clone)]
pub struct DiscoveryConfig {
    /// Discovery mode: a set of port ranges, a list of ports, or every port.
    pub mode: DiscoveryMode,
}

#[derive(Debug, Clone, Copy, PartialEq, Eq, Structural)]
pub enum DiscoveryMode {
    Range,
    Specific,
    All,
}

#[derive(Debug, Clone)]
pub struct PortsConfig {
    /// Port ranges to monitor (used in the range mode).
    pub ranges: Vec<PortRange>,
    /// Ports to monitor (used in the specific mode).
    pub specific: Vec<u16>,
}

/// The ports from `start` to `end`, both included.
#[derive(Debug, Clone)]
pub struct PortRange {
    pub start: u16,
    pub end: u16,
    pub description: String,
}

#[derive(Debug, Clone)]
pub struct IgnoreConfig {
    /// Ports to leave alone, in every mode.
    pub ports: Vec<u16>,
    /// Process names to leave alone, in every mode.
    pub processes: Vec<String>,
}

#[derive(Debug, Clone, Copy, PartialEq, Eq, Structural)]
pub struct AppConfig {
    /// Monitoring interval in seconds.
    pub monitoring_interval_seconds: u64,
    /// Verbose logging.
    pub verbose_logging: bool,
    /// Show process ids in the output.
    pub show_process_ids: bool,
    /// Cooldown between menu updates, in seconds.
    pub menu_update_cooldown_seconds: u64,
    /// The most processes to show in the menu.
    pub max_processes_in_menu: usize,
}

pub open spec fn default_app_config() -> AppConfig {
    AppConfig {
        monitoring_interval_seconds: 3,
        verbose_logging: false,
        show_process_ids: false,
        menu_update_cooldown_seconds: 2,
        max_processes_in_menu: 20,
    }
}

impl Default for AppConfig {
    fn default() -> (r: AppConfig)
        ensures
            r == default_app_config(),
    {
        AppConfig {
            monitoring_interval_seconds: 3,
            verbose_logging: false,
            show_process_ids: false,
            menu_update_cooldown_seconds: 2,
            max_processes_in_menu: 20,
        }
    }
}

pub open spec fn range_is(r: PortRange, start: u16, end: u16, description: Seq<char>) -> bool {
    r.start == start && r.end == end && r.description@ == description
}

impl Default for Config {
    /// Three development ranges, the usual development ports for the specific
    /// mode, and the common desktop applications left alone.
    fn default() -> (r: Config)
        ensures
            r.discovery.mode == DiscoveryMode::Range,
            r.ports.ranges.len() == 3,
            range_is(r.ports.ranges@[0], 3000, 3010, "React, Next.js, development servers"@),
            range_is(r.ports.ranges@[1], 5000, 5010, "Flask, Vite, PostgreSQL, development"@),
            range_is(r.ports.ranges@[2], 8000, 8010, "Django, FastAPI, general HTTP servers"@),
            r.ports.specific@ == seq![3000u16, 3001, 5000, 5173, 8000, 8080],
            r.ignore.ports@ == seq![5353u16, 7000],
            strings_view(r.ignore.processes@) == seq![
                "Google"@,
                "Adobe"@,
                "Dropbox"@,
                "Cursor"@,
                "Figma"@,
                "Raycast"@,
                "ControlCe"@,
                "sharingd"@,
                "rapportd"@,
            ],
            r.app == default_app_config(),
    {
        let ranges = vec![
            PortRange {
                start: 3000,
                end: 3010,
                description: "React, Next.js, development servers".to_owned(),
            },
            PortRange {
                start: 5000,
                end: 5010,
                description: "Flask, Vite, PostgreSQL, development".to_owned(),
            },
            PortRange {
                start: 8000,
                end: 8010,
                description: "Django, FastAPI, general HTTP servers".to_owned(),
            },
        ];
        let processes = vec![
            "Google".to_owned(),
            "Adobe".to_owned(),
            "Dropbox".to_owned(),
            "Cursor".to_owned(),
            "Figma".to_owned(),
            "Raycast".to_owned(),
            "ControlCe".to_owned(),
            "sharingd".to_owned(),
            "rapportd".to_owned(),
        ];
        let r = Config {
            discovery: DiscoveryConfig { mode: DiscoveryMode::Range },
            ports: PortsConfig { ranges, specific: vec![3000, 3001, 5000, 5173, 8000, 8080] },
            ignore: IgnoreConfig { ports: vec![5353, 7000], processes },
            app: AppConfig::default(),
        };
        assert(strings_view(r.ignore.processes@) =~= seq![
            "Google"@,
            "Adobe"@,
            "Dropbox"@,
            "Cursor"@,
            "Figma"@,
            "Raycast"@,
            "ControlCe"@,
            "sharingd"@,
            "rapportd"@,
        ]);
        r
    }
}

/// The ports of one range, in increasing order; none when `start > end`.
pub open spec fn range_ports(r: PortRange) -> Seq<u16> {
    Seq::new(
        if r.start <= r.end {
            (r.end - r.start + 1) as nat
        } else {
            0
        },
        |i: int| (r.start + i) as u16,
    )
}

/// The ports of the ranges, range after range.
pub open spec fn ranges_ports(rs: Seq<PortRange>) -> Seq<u16>
    decreases rs.len(),
{
    if rs.len() == 0 {
        Seq::empty()
    } else {
        ranges_ports(rs.drop_last()) + range_ports(rs.last())
    }
}

/// The ports that `c` monitors; none at all stands for every port.
pub open spec fn ports_to_monitor(c: Config) -> Seq<u16> {
    match c.discovery.mode {
        DiscoveryMode::Range => ranges_ports(c.ports.ranges@),
        DiscoveryMode::Specific => c.ports.specific@,
        DiscoveryMode::All => Seq::empty(),
    }
}

/// The ports in decimal, separated by `", "`.
pub open spec fn listed_ports_text(ports: Seq<u16>) -> Seq<char>
    decreases ports.len(),
{
    if ports.len() == 0 {
        Seq::empty()
    } else if ports.len() == 1 {
        decimal_digits(ports[0] as nat)
    } else {
        listed_ports_text(ports.drop_last()) + seq![',', ' '] + decimal_digits(
            ports.last() as nat,
        )
    }
}

/// `start-end (description)`.
pub open spec fn range_text(r: PortRange) -> Seq<char> {
    decimal_digits(r.start as nat) + seq!['-'] + decimal_digits(r.end as nat) + seq![' ', '(']
        + r.description@ + seq![')']
}

/// The ranges as text, separated by `", "`.
pub open spec fn listed_ranges_text(rs: Seq<PortRange>) -> Seq<char>
    decreases rs.len(),
{
    if rs.len() == 0 {
        Seq::empty()
    } else if rs.len() == 1 {
        range_text(rs[0])
    } else {
        listed_ranges_text(rs.drop_last()) + seq![',', ' '] + range_text(rs.last())
    }
}

/// The one-line description of what `c` monitors.
pub open spec fn monitoring_description(c: Config) -> Seq<char> {
    match c.discovery.mode {
        DiscoveryMode::All => "auto-discovering ALL listening processes on ANY port"@,
        DiscoveryMode::Specific => "specific ports: "@ + listed_ports_text(c.ports.specific@),
        DiscoveryMode::Range => "port ranges: "@ + listed_ranges_text(c.ports.ranges@),
    }
}

impl Config {
    /// All ports to monitor, as the discovery mode selects them; empty in
    /// the mode that discovers every port.
    pub fn get_ports_to_monitor(&self) -> (r: Vec<u16>)
        ensures
            r@ == ports_to_monitor(*self),
    {
        match self.discovery.mode {
            DiscoveryMode::Range => {
                let mut ports: Vec<u16> = Vec::new();
                let mut k: usize = 0;
                while k < self.ports.ranges.len()
                    invariant
                        k <= self.ports.ranges.len(),
                        ports@ == ranges_ports(self.ports.ranges@.take(k as int)),
                    decreases self.ports.ranges.len() - k,
                {
                    let start = self.ports.ranges[k].start;
                    let end = self.ports.ranges[k].end;
                    let ghost before = ports@;
                    let ghost r = self.ports.ranges@[k as int];
                    let mut p: u32 = start as u32;
                    while p <= end as u32
                        invariant
                            start as u32 <= p,
                            p == start as u32 || p <= end as u32 + 1,
                            start == r.start,
                            end == r.end,
                            ports@ == before + range_ports(r).take(p - start),
                        decreases end as u32 + 1 - p,
                    {
                        ports.push(p as u16);
                        assert(range_ports(r).take(p + 1 - start) =~= range_ports(r).take(
                            p - start,
                        ).push(p as u16));
                        p = p + 1;
                    }
                    assert(range_ports(r).take(p - start) =~= range_ports(r));
                    assert(self.ports.ranges@.take(k + 1).drop_last() =~= self.ports.ranges@.take(
                        k as int,
                    ));
                    k = k + 1;
                }
                assert(self.ports.ranges@.take(k as int) =~= self.ports.ranges@);
                ports
            },
            DiscoveryMode::Specific => {
                let mut ports: Vec<u16> = Vec::new();
                let mut k: usize = 0;
                while k < self.ports.specific.len()
                    invariant
                        k <= self.ports.specific.len(),
                        ports@ == self.ports.specific@.take(k as int),
                    decreases self.ports.specific.len() - k,
                {
                    ports.push(self.ports.specific[k]);
                    assert(ports@ =~= self.ports.specific@.take(k + 1));
                    k = k + 1;
                }
                assert(self.ports.specific@.take(k as int) =~= self.ports.specific@);
                ports
            },
            DiscoveryMode::All => Vec::new(),
        }
    }

    /// The ports to ignore, as a set.
    pub fn get_ignore_ports_set(&self) -> (r: HashSet<u16>)
        ensures
            r@ == self.ignore.ports@.to_set(),
    {
        let mut set: HashSet<u16> = HashSet::new();
        let mut k: usize = 0;
        while k < self.ignore.ports.len()
            invariant
                k <= self.ignore.ports.len(),
                set@ == self.ignore.ports@.take(k as int).to_set(),
            decreases self.ignore.ports.len() - k,
        {
            let ghost before = self.ignore.ports@.take(k as int);
            set.insert(self.ignore.ports[k]);
            assert(self.ignore.ports@.take(k + 1) =~= before.push(self.ignore.ports@[k as int]));
            assert(set@ =~= self.ignore.ports@.take(k + 1).to_set()) by {
                let next = self.ignore.ports@.take(k + 1);
                assert forall|x: u16| next.contains(x) <==> (before.contains(x) || x
                    == self.ignore.ports@[k as int]) by {
                    if before.contains(x) {
                        let i = choose|i: int| 0 <= i < before.len() && before[i] == x;
                        assert(next[i] == x);
                    }
                    if x == self.ignore.ports@[k as int] {
                        assert(next[k as int] == x);
                    }
                    if next.contains(x) {
                        let i = choose|i: int| 0 <= i < next.len() && next[i] == x;
                        if i < k {
                            assert(before[i] == x);
                        }
                    }
                }
            }
            k = k + 1;
        }
        assert(self.ignore.ports@.take(k as int) =~= self.ignore.ports@);
        set
    }

    /// The process names to ignore, as a set.
    pub fn get_ignore_processes_set(&self) -> (r: NameSet)
        ensures
            r@ == strings_view(self.ignore.processes@).to_set(),
    {
        let mut set = NameSet::new();
        let mut k: usize = 0;
        while k < self.ignore.processes.len()
            invariant
                k <= self.ignore.processes.len(),
                set@ == strings_view(self.ignore.processes@.take(k as int)).to_set(),
            decreases self.ignore.processes.len() - k,
        {
            let ghost before = strings_view(self.ignore.processes@.take(k as int));
            let name = self.ignore.processes[k].clone();
            set.insert(name);
            let ghost next = strings_view(self.ignore.processes@.take(k + 1));
            assert(next =~= before.push(name@));
            assert forall|x: Seq<char>| next.contains(x) <==> (before.contains(x) || x
                == name@) by {
                if before.contains(x) {
                    let i = choose|i: int| 0 <= i < before.len() && before[i] == x;
                    assert(next[i] == x);
                }
                if x == name@ {
                    assert(next[k as int] == x);
                }
                if next.contains(x) {
                    let i = choose|i: int| 0 <= i < next.len() && next[i] == x;
                    if i < k {
                        assert(before[i] == x);
                    }
                }
            }
            assert(set@ =~= next.to_set());
            k = k + 1;
        }
        assert(self.ignore.processes@.take(k as int) =~= self.ignore.processes@);
        set
    }

    /// The ignore policy of this configuration.
    pub fn ignore_set(&self) -> (r: IgnoreSet)
        ensures
            r@.ports == self.ignore.ports@.to_set(),
            r@.process_names == strings_view(self.ignore.processes@).to_set(),
    {
        IgnoreSet {
            ports: self.get_ignore_ports_set(),
            process_names: self.get_ignore_processes_set(),
        }
    }

    /// Whether every listening port is discovered.
    pub fn is_discover_all(&self) -> (r: bool)
        ensures
            r == (self.discovery.mode == DiscoveryMode::All),
    {
        self.discovery.mode == DiscoveryMode::All
    }

    /// A one-line description of what is monitored.
    pub fn get_monitoring_description(&self) -> (r: String)
        ensures
            r@ == monitoring_description(*self),
    {
        match self.discovery.mode {
            DiscoveryMode::All => "auto-discovering ALL listening processes on ANY port".to_owned(),
            DiscoveryMode::Specific => {
                let mut s = "specific ports: ".to_owned();
                let ghost head = s@;
                let ports = &self.ports.specific;
                let mut k: usize = 0;
                while k < ports.len()
                    invariant
                        k <= ports.len(),
                        ports@ == self.ports.specific@,
                        s@ == head + listed_ports_text(ports@.take(k as int)),
                    decreases ports.len() - k,
                {
                    assert(ports@.take(k + 1).drop_last() =~= ports@.take(k as int));
                    if k > 0 {
                        push_char(&mut s, ',');
                        push_char(&mut s, ' ');
                    }
                    push_decimal(&mut s, ports[k]);
                    assert(s@ =~= head + listed_ports_text(ports@.take(k + 1)));
                    k = k + 1;
                }
                assert(ports@.take(k as int) =~= ports@);
                s
            },
            DiscoveryMode::Range => {
                let mut s = "port ranges: ".to_owned();
                let ghost head = s@;
                let ranges = &self.ports.ranges;
                let mut k: usize = 0;
                while k < ranges.len()
                    invariant
                        k <= ranges.len(),
                        ranges@ == self.ports.ranges@,
                        s@ == head + listed_ranges_text(ranges@.take(k as int)),
                    decreases ranges.len() - k,
                {
                    assert(ranges@.take(k + 1).drop_last() =~= ranges@.take(k as int));
                    if k > 0 {
                        push_char(&mut s, ',');
                        push_char(&mut s, ' ');
                    }
                    let ghost before = s@;
                    push_decimal(&mut s, ranges[k].start);
                    push_char(&mut s, '-');
                    push_decimal(&mut s, ranges[k].end);
                    push_char(&mut s, ' ');
                    push_char(&mut s, '(');
                    s.append(ranges[k].description.as_str());
                    push_char(&mut s, ')');
                    assert(s@ =~= before + range_text(ranges@[k as int]));
                    assert(s@ =~= head + listed_ranges_text(ranges@.take(k + 1)));
                    k = k + 1;
                }
                assert(ranges@.take(k as int) =~= ranges@);
                s
            },
        }
    }
}

} // verus!
