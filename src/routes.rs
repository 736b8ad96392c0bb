//! The route table: which request paths are known, and which of them need a token.
use vstd::prelude::*;

verus! {

/// How a request path is treated.
#[derive(Clone, Copy, Debug, PartialEq, Eq, Structural)]
pub enum RouteClass {
    Protected,
    Public,
    Unknown,
}

/// One known path and whether it requires a token.
#[derive(Debug)]
pub struct RouteEntry {
    pub path: String,
    pub protected: bool,
}

/// An immutable table of known paths, looked up by exact match.
#[derive(Debug)]
pub struct RouteTable {
    entries: Vec<RouteEntry>,
}

pub open spec fn entry_views(entries: Seq<RouteEntry>) -> Seq<(Seq<char>, bool)> {
    entries.map_values(|e: RouteEntry| (e.path@, e.protected))
}

/// Whether the first entry for `path` is protected; `None` for an unknown path.
pub open spec fn lookup_route(entries: Seq<(Seq<char>, bool)>, path: Seq<char>) -> Option<bool>
    decreases entries.len(),
{
    if entries.len() == 0 {
        None
    } else if entries[0].0 == path {
        Some(entries[0].1)
    } else {
        lookup_route(entries.drop_first(), path)
    }
}

pub open spec fn classify_spec(entries: Seq<(Seq<char>, bool)>, path: Seq<char>) -> RouteClass {
    match lookup_route(entries, path) {
        Some(true) => RouteClass::Protected,
        Some(false) => RouteClass::Public,
        None => RouteClass::Unknown,
    }
}

impl View for RouteTable {
    type V = Seq<(Seq<char>, bool)>;

    closed spec fn view(&self) -> Seq<(Seq<char>, bool)> {
        entry_views(self.entries@)
    }
}

impl RouteTable {
    /// A table of the given entries; for a path listed twice the first entry counts.
    pub fn new(entries: Vec<RouteEntry>) -> (r: RouteTable)
        ensures
            r@ == entry_views(entries@),
    {
        RouteTable { entries }
    }

    /// The service's own table: the sign-up and login calls, both public.
    pub fn standard() -> (r: RouteTable)
        ensures
            r@ == seq![
                ("/users.v1.UsersService/CreateSupplier"@, false),
                ("/users.v1.UsersService/Login"@, false),
            ],
    {
        let mut entries: Vec<RouteEntry> = Vec::new();
        entries.push(
            RouteEntry {
                path: String::from_str("/users.v1.UsersService/CreateSupplier"),
                protected: false,
            },
        );
        entries.push(
            RouteEntry { path: String::from_str("/users.v1.UsersService/Login"), protected: false },
        );
        let r = RouteTable { entries };
        assert(r@ =~= seq![
            ("/users.v1.UsersService/CreateSupplier"@, false),
            ("/users.v1.UsersService/Login"@, false),
        ]);
        r
    }

    /// Classifies `path`: protected, public, or unknown when no entry matches it exactly.
    pub fn classify(&self, path: &str) -> (r: RouteClass)
        ensures
            r == classify_spec(self@, path@),
    {
        let target = path.to_owned();
        let mut i: usize = 0;
        assert(self@.subrange(0, self@.len() as int) =~= self@);
        while i < self.entries.len()
            invariant
                0 <= i <= self.entries@.len(),
                self@.len() == self.entries@.len(),
                target@ == path@,
                lookup_route(self@, path@) == lookup_route(self@.subrange(i as int, self@.len() as int), path@),
            decreases self.entries@.len() - i,
        {
            let ghost rest = self@.subrange(i as int, self@.len() as int);
            assert(rest[0] == (self.entries@[i as int].path@, self.entries@[i as int].protected));
            if self.entries[i].path == target {
                return if self.entries[i].protected {
                    RouteClass::Protected
                } else {
                    RouteClass::Public
                };
            }
            assert(rest.drop_first() =~= self@.subrange(i + 1, self@.len() as int));
            i = i + 1;
        }
        RouteClass::Unknown
    }
}

} // verus!
