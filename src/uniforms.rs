//! The table from a shader program's uniform names to their locations.
use vstd::prelude::*;

verus! {

/// The location a graphics driver reports for a name that is not an active
/// uniform of the program.
pub const NO_LOCATION: i32 = -1;

/// The location recorded for `name` in `entries`: the latest entry with that
/// name wins.
pub open spec fn find(entries: Seq<(Seq<char>, i32)>, name: Seq<char>) -> Option<i32>
    decreases entries.len(),
{
    if entries.len() == 0 {
        None
    } else if entries.last().0 == name {
        Some(entries.last().1)
    } else {
        find(entries.drop_last(), name)
    }
}

/// Uniform names of one program with their locations.
pub struct UniformTable {
    entries: Vec<(String, i32)>,
}

impl View for UniformTable {
    type V = Seq<(Seq<char>, i32)>;

    closed spec fn view(&self) -> Seq<(Seq<char>, i32)> {
        self.entries@.map_values(|e: (String, i32)| (e.0@, e.1))
    }
}

impl UniformTable {
    /// The location recorded for `name`, if any.
    pub open spec fn location_of(&self, name: Seq<char>) -> Option<i32> {
        find(self@, name)
    }

    /// A table with no names.
    pub fn new() -> (r: UniformTable)
        ensures
            forall|n: Seq<char>| r.location_of(n) is None,
    {
        let r = UniformTable { entries: Vec::new() };
        assert(r@ =~= Seq::<(Seq<char>, i32)>::empty());
        r
    }

    /// Records `location` for `name`, replacing an earlier one, unless it is
    /// `NO_LOCATION`; returns whether it was recorded.
    pub fn add(&mut self, name: &str, location: i32) -> (recorded: bool)
        ensures
            recorded == (location != NO_LOCATION),
            forall|n: Seq<char>|
                #[trigger] final(self).location_of(n) == if recorded && n == name@ {
                    Some(location)
                } else {
                    old(self).location_of(n)
                },
    {
        if location == NO_LOCATION {
            return false;
        }
        let ghost before = self@;
        self.entries.push((name.to_owned(), location));
        assert(self@.drop_last() =~= before);
        true
    }

    /// The location recorded for `name`, searched from the latest entry back.
    pub fn location(&self, name: &str) -> (r: Option<i32>)
        ensures
            r == self.location_of(name@),
    {
        let key: String = name.to_owned();
        let mut i: usize = self.entries.len();
        assert(self@.subrange(0, i as int) =~= self@);
        while i > 0
            invariant
                i <= self.entries@.len(),
                key@ == name@,
                find(self@, name@) == find(self@.subrange(0, i as int), name@),
            decreases i,
        {
            let entry = &self.entries[i - 1];
            proof {
                assert(self@.subrange(0, i as int).drop_last() =~= self@.subrange(0, i - 1));
            }
            if entry.0 == key {
                return Some(entry.1);
            }
            i = i - 1;
        }
        proof {
            assert(self@.subrange(0, 0) =~= Seq::<(Seq<char>, i32)>::empty());
        }
        None
    }
}

} // verus!
