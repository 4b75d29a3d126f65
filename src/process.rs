//! The record of one listening process, as one discovery reports it.
use vstd::prelude::*;

verus! {

/// A process that listens on a port.
#[derive(Debug, Clone)]
pub struct ProcessInfo {
    pub pid: i32,
    pub port: u16,
    pub command: String,
    pub name: String,
    pub container_id: Option<String>,
    pub container_name: Option<String>,
}

/// The mathematical value of a `ProcessInfo`: its strings as character sequences.
pub struct ProcessView {
    pub pid: i32,
    pub port: u16,
    pub command: Seq<char>,
    pub name: Seq<char>,
    pub container_id: Option<Seq<char>>,
    pub container_name: Option<Seq<char>>,
}

pub open spec fn text_view(o: Option<String>) -> Option<Seq<char>> {
    match o {
        Some(s) => Some(s@),
        None => None,
    }
}

impl View for ProcessInfo {
    type V = ProcessView;

    open spec fn view(&self) -> ProcessView {
        ProcessView {
            pid: self.pid,
            port: self.port,
            command: self.command@,
            name: self.name@,
            container_id: text_view(self.container_id),
            container_name: text_view(self.container_name),
        }
    }
}

/// The views of a sequence of records.
pub open spec fn views(s: Seq<ProcessInfo>) -> Seq<ProcessView> {
    s.map_values(|p: ProcessInfo| p@)
}

} // verus!
