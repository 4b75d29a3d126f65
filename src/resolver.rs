//! The Action Resolver: what a click in the status menu asks for.
//!
//! The menu is laid out once, statically, so an event is resolved by the
//! ordinal that the UI toolkit gave its item: 0 is "kill all", 6 is "quit".
//! The toolkit's numbering was observed rather than documented, so a table of
//! identifiers seen from earlier layouts is consulted next. Anything else is
//! `Unknown`. The snapshot of listening processes plays no part.
use vstd::prelude::*;
use std::collections::HashMap;
use crate::process::{ProcessInfo, ProcessView};
use crate::discovery::map_view;
use crate::text::{parse_i32, chars_of, parse_i32_in};

verus! {

#[derive(Debug, Clone, Copy, PartialEq, Eq, Structural)]
pub enum MenuAction {
    KillAll,
    KillProcess(u16),
    Quit,
    Unknown,
}

/// The identifiers that earlier menu layouts produced.
pub open spec fn legacy_action(id: Seq<char>) -> MenuAction {
    if id == seq!['1', '0'] {
        MenuAction::KillAll
    } else if id == seq!['1', '6'] || id == seq!['8'] {
        MenuAction::Quit
    } else if id == seq!['1'] || id == seq!['2'] || id == seq!['4'] || id == seq!['5'] {
        MenuAction::KillAll
    } else if id == seq!['1', '2'] || id == seq!['1', '3'] || id == seq!['1', '4'] || id == seq![
        '1',
        '5',
    ] {
        MenuAction::KillAll
    } else {
        MenuAction::Unknown
    }
}

/// The action that the event identifier `id` stands for.
pub open spec fn menu_action(id: Seq<char>) -> MenuAction {
    match parse_i32(id) {
        Some(n) => if n == 0 || n == 3 {
            MenuAction::KillAll
        } else if n == 6 {
            MenuAction::Quit
        } else {
            legacy_action(id)
        },
        None => legacy_action(id),
    }
}

/// What resolving `id` against the snapshot `records` gives.
pub open spec fn resolved(id: Seq<char>, records: Map<u16, ProcessView>) -> MenuAction {
    menu_action(id)
}

fn chars_are(chars: &Vec<char>, lit: &[char]) -> (r: bool)
    ensures
        r == (chars@ == lit@),
{
    if chars.len() != lit.len() {
        return false;
    }
    let mut i: usize = 0;
    while i < chars.len()
        invariant
            i <= chars.len() == lit@.len(),
            forall|j: int| 0 <= j < i ==> chars@[j] == lit@[j],
        decreases chars.len() - i,
    {
        if chars[i] != lit[i] {
            return false;
        }
        i = i + 1;
    }
    assert(chars@ =~= lit@);
    true
}

fn legacy_lookup(chars: &Vec<char>) -> (r: MenuAction)
    ensures
        r == legacy_action(chars@),
{
    proof {
        assert(['1', '0']@ =~= seq!['1', '0']);
        assert(['1', '6']@ =~= seq!['1', '6']);
        assert(['8']@ =~= seq!['8']);
        assert(['1']@ =~= seq!['1']);
        assert(['2']@ =~= seq!['2']);
        assert(['4']@ =~= seq!['4']);
        assert(['5']@ =~= seq!['5']);
        assert(['1', '2']@ =~= seq!['1', '2']);
        assert(['1', '3']@ =~= seq!['1', '3']);
        assert(['1', '4']@ =~= seq!['1', '4']);
        assert(['1', '5']@ =~= seq!['1', '5']);
    }
    if chars_are(chars, &['1', '0']) {
        MenuAction::KillAll
    } else if chars_are(chars, &['1', '6']) || chars_are(chars, &['8']) {
        MenuAction::Quit
    } else if chars_are(chars, &['1']) || chars_are(chars, &['2']) || chars_are(chars, &['4'])
        || chars_are(chars, &['5']) {
        MenuAction::KillAll
    } else if chars_are(chars, &['1', '2']) || chars_are(chars, &['1', '3']) || chars_are(
        chars,
        &['1', '4'],
    ) || chars_are(chars, &['1', '5']) {
        MenuAction::KillAll
    } else {
        MenuAction::Unknown
    }
}

/// Resolves the menu event `menu_id` to an action. The result depends on
/// the identifier alone, whatever `processes` holds.
pub fn map_menu_id_to_action(menu_id: &str, processes: &HashMap<u16, ProcessInfo>) -> (r:
    MenuAction)
    ensures
        r == resolved(menu_id@, map_view(processes@)),
{
    let chars = chars_of(menu_id);
    assert(chars@.subrange(0, chars@.len() as int) =~= chars@);
    match parse_i32_in(&chars, 0, chars.len()) {
        Some(n) => {
            if n == 0 || n == 3 {
                MenuAction::KillAll
            } else if n == 6 {
                MenuAction::Quit
            } else {
                legacy_lookup(&chars)
            }
        },
        None => legacy_lookup(&chars),
    }
}

/// Resolution is a function of the event identifier alone: two snapshots,
/// however they differ, give the same action for one identifier.
pub proof fn lemma_resolution_ignores_snapshot(
    id: Seq<char>,
    a: Map<u16, ProcessView>,
    b: Map<u16, ProcessView>,
)
    ensures
        resolved(id, a) == resolved(id, b),
        !(resolved(id, a) is KillProcess),
{
}

} // verus!
