//! A picture of the file system, taken before a decision is made.
//!
//! The commands never touch the file system themselves. Their caller looks
//! at the paths that matter and records what it saw in a `Disk`; the
//! commands read the record. A path that the record does not hold counts
//! as absent.

use crate::text::same_text;
use vstd::prelude::*;

verus! {

/// What was seen at a path.
#[derive(Debug, PartialEq, Eq)]
pub enum Node {
    /// Something that is no directory, or a directory that was not listed.
    File,
    /// A directory, with the names of its entries in the order in which
    /// the system listed them.
    Dir(Vec<String>),
}

/// The mathematical value of a `Node`.
pub enum NodeView {
    File,
    Dir(Seq<Seq<char>>),
}

impl View for Node {
    type V = NodeView;

    open spec fn view(&self) -> NodeView {
        match self {
            Node::File => NodeView::File,
            Node::Dir(names) => NodeView::Dir(names.deep_view()),
        }
    }
}

/// One path that was looked at and found to exist.
#[derive(Debug, PartialEq, Eq)]
pub struct Entry {
    pub path: String,
    pub node: Node,
}

/// The mathematical value of an `Entry`.
pub struct EntryView {
    pub path: Seq<char>,
    pub node: NodeView,
}

impl View for Entry {
    type V = EntryView;

    open spec fn view(&self) -> EntryView {
        EntryView { path: self.path@, node: self.node@ }
    }
}

/// The paths that were found to exist. Where a path occurs twice, its
/// first entry counts.
#[derive(Debug, PartialEq, Eq)]
pub struct Disk {
    pub entries: Vec<Entry>,
}

/// The mathematical value of a `Disk`.
pub type DiskView = Seq<EntryView>;

impl View for Disk {
    type V = DiskView;

    open spec fn view(&self) -> DiskView {
        Seq::new(self.entries@.len(), |i: int| self.entries@[i]@)
    }
}

/// What the record holds at `path`: the node of the first entry with that path.
pub open spec fn node_at(d: DiskView, path: Seq<char>) -> Option<NodeView>
    decreases d.len(),
{
    if d.len() == 0 {
        None
    } else if d[0].path == path {
        Some(d[0].node)
    } else {
        node_at(d.drop_first(), path)
    }
}

/// Something exists at `path`.
pub open spec fn present(d: DiskView, path: Seq<char>) -> bool {
    node_at(d, path) is Some
}

/// A listed directory exists at `path`.
pub open spec fn is_dir(d: DiskView, path: Seq<char>) -> bool {
    node_at(d, path) matches Some(NodeView::Dir(_))
}

/// The entry names of the directory at `path`, if a listed directory is there.
pub open spec fn listing(d: DiskView, path: Seq<char>) -> Option<Seq<Seq<char>>> {
    match node_at(d, path) {
        Some(NodeView::Dir(names)) => Some(names),
        _ => None,
    }
}

impl Disk {
    /// A record of nothing: every path is absent.
    pub fn new() -> (disk: Disk)
        ensures
            disk@ == Seq::<EntryView>::empty(),
    {
        let disk = Disk { entries: Vec::new() };
        proof {
            assert(disk@ == Seq::<EntryView>::empty());
        }
        disk
    }

    /// Records that `path` exists and is no listed directory.
    pub fn add_file(&mut self, path: &str)
        ensures
            final(self)@ == old(self)@.push(EntryView { path: path@, node: NodeView::File }),
    {
        self.entries.push(Entry { path: String::from_str(path), node: Node::File });
        proof {
            assert(self@ == old(self)@.push(EntryView { path: path@, node: NodeView::File }));
        }
    }

    /// Records that `path` is a directory whose entries are `names`.
    pub fn add_dir(&mut self, path: &str, names: Vec<String>)
        ensures
            final(self)@ == old(self)@.push(
                EntryView { path: path@, node: NodeView::Dir(names.deep_view()) },
            ),
    {
        let ghost listed = names.deep_view();
        self.entries.push(Entry { path: String::from_str(path), node: Node::Dir(names) });
        proof {
            assert(self@ == old(self)@.push(
                EntryView { path: path@, node: NodeView::Dir(listed) },
            ));
        }
    }

    /// What the record holds at `path`.
    pub fn node(&self, path: &str) -> (r: Option<&Node>)
        ensures
            match node_at(self@, path@) {
                Some(n) => r matches Some(m) && m@ == n,
                None => r is None,
            },
    {
        let mut i: usize = 0;
        proof {
            assert(self@.skip(0) == self@);
        }
        while i < self.entries.len()
            invariant
                i <= self.entries.len(),
                node_at(self@, path@) == node_at(self@.skip(i as int), path@),
            decreases self.entries.len() - i,
        {
            if same_text(self.entries[i].path.as_str(), path) {
                return Some(&self.entries[i].node);
            }
            proof {
                assert(self@.skip(i as int).drop_first() == self@.skip(i + 1));
            }
            i = i + 1;
        }
        None
    }

    /// Whether something exists at `path`.
    pub fn holds(&self, path: &str) -> (r: bool)
        ensures
            r == present(self@, path@),
    {
        self.node(path).is_some()
    }

    /// Whether a listed directory exists at `path`.
    pub fn is_dir(&self, path: &str) -> (r: bool)
        ensures
            r == is_dir(self@, path@),
    {
        match self.node(path) {
            Some(Node::Dir(_)) => true,
            _ => false,
        }
    }

    /// The entry names of the directory at `path`.
    pub fn read_dir(&self, path: &str) -> (r: Option<&Vec<String>>)
        ensures
            match listing(self@, path@) {
                Some(names) => r matches Some(v) && v.deep_view() == names,
                None => r is None,
            },
    {
        match self.node(path) {
            Some(Node::Dir(names)) => Some(names),
            _ => None,
        }
    }
}

} // verus!
