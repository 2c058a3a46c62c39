//! The LSP values that the server builds: positions, ranges, locations,
//! commands and code lenses.
use vstd::prelude::*;

verus! {

/// A position in a document: a 0-based line and a 0-based character.
#[derive(Clone, Copy)]
pub struct Position {
    pub line: u32,
    pub character: u32,
}

impl Position {
    pub fn new(line: u32, character: u32) -> (p: Position)
        ensures
            p.line == line,
            p.character == character,
    {
        Position { line, character }
    }
}

/// A range between two positions.
#[derive(Clone, Copy)]
pub struct Range {
    pub start: Position,
    pub end: Position,
}

/// A range inside the document that a URI names.
pub struct Location {
    pub uri: String,
    pub range: Range,
}

/// A command that a client runs when a lens is clicked. The command is sent
/// with one argument: the list of locations.
pub struct Command {
    pub title: String,
    pub command: String,
    pub locations: Vec<Location>,
}

/// A code lens: a range, a command once resolved, and the data that the
/// server keeps with the lens until it resolves it.
pub struct CodeLens<D> {
    pub range: Range,
    pub command: Option<Command>,
    pub data: Option<D>,
}

/// Two commands with the same title, name and locations.
pub open spec fn same_command(a: Command, b: Command) -> bool {
    a.title == b.title && a.command == b.command && a.locations@ == b.locations@
}

/// The range that marks one line: from its first character to its second.
pub open spec fn line_marker(r: Range, line: u32) -> bool {
    &&& r.start.line == line
    &&& r.start.character == 0
    &&& r.end.line == line
    &&& r.end.character == 1
}

/// The range from character 0 to character 1 of `line`.
pub fn line_range(line: u32) -> (r: Range)
    ensures
        line_marker(r, line),
{
    Range { start: Position::new(line, 0), end: Position::new(line, 1) }
}

impl Location {
    /// A copy of the location.
    pub fn duplicate(&self) -> (copy: Location)
        ensures
            copy == *self,
    {
        Location { uri: self.uri.clone(), range: self.range }
    }
}

/// A copy of a list of locations.
pub fn duplicate_locations(locations: &Vec<Location>) -> (copy: Vec<Location>)
    ensures
        copy@ == locations@,
{
    let mut out: Vec<Location> = Vec::new();
    let mut i: usize = 0;
    while i < locations.len()
        invariant
            i <= locations.len(),
            out@ == locations@.take(i as int),
        decreases locations.len() - i,
    {
        out.push(locations[i].duplicate());
        assert(locations@.take(i + 1) =~= locations@.take(i as int).push(locations@[i as int]));
        i = i + 1;
    }
    assert(locations@.take(locations.len() as int) =~= locations@);
    out
}

impl Command {
    /// A copy of the command.
    pub fn duplicate(&self) -> (copy: Command)
        ensures
            same_command(copy, *self),
    {
        let locations = duplicate_locations(&self.locations);
        Command { title: self.title.clone(), command: self.command.clone(), locations }
    }
}

} // verus!
