//! Append-only buffer of human-readable status lines for the current job.

use vstd::prelude::*;

verus! {

/// Ordered sequence of status lines, insertion order significant.
/// Owned exclusively by the lifecycle controller; the presentation layer
/// only reads snapshots.
pub struct LogBuffer {
    lines: Vec<String>,
}

impl View for LogBuffer {
    type V = Seq<Seq<char>>;

    closed spec fn view(&self) -> Seq<Seq<char>> {
        self.lines@.map_values(|s: String| s@)
    }
}

impl LogBuffer {
    /// An empty buffer.
    pub fn new() -> (r: Self)
        ensures
            r@ =~= Seq::<Seq<char>>::empty(),
    {
        LogBuffer { lines: Vec::new() }
    }

    /// Append one line at the end, keeping every earlier line in place.
    pub fn append(&mut self, line: String)
        ensures
            final(self)@ =~= old(self)@.push(line@),
    {
        self.lines.push(line);
        proof {
            assert(self@ =~= old(self)@.push(line@));
        }
    }

    /// Drop every line; called only when a new job starts or the
    /// notification showing the lines is torn down.
    pub fn clear(&mut self)
        ensures
            final(self)@ =~= Seq::<Seq<char>>::empty(),
    {
        self.lines.clear();
    }

    /// Read-only snapshot for rendering, oldest line first.
    pub fn snapshot(&self) -> (r: &Vec<String>)
        ensures
            r@.map_values(|s: String| s@) == self@,
    {
        &self.lines
    }

    /// Number of lines currently held.
    pub fn len(&self) -> (n: usize)
        ensures
            n == self@.len(),
    {
        self.lines.len()
    }
}

} // verus!
