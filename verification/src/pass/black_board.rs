//! Textures by name, through which one pass hands its output to another.

use crate::render_client::resource::TextureId;
use vstd::prelude::*;

verus! {

#[derive(Debug)]
struct Entry {
    name: String,
    texture: TextureId,
}

/// Maps names to textures. A name occurs at most once; the order of the
/// entries carries no meaning.
#[derive(Debug)]
pub struct BlackBoard {
    entries: Vec<Entry>,
}

/// The position of `name` among `entries`, if it occurs.
spec fn occurs_at(entries: Seq<Entry>, name: Seq<char>, i: int) -> bool {
    0 <= i < entries.len() && entries[i].name@ == name
}

impl View for BlackBoard {
    type V = Map<Seq<char>, TextureId>;

    closed spec fn view(&self) -> Map<Seq<char>, TextureId> {
        Map::new(
            |name: Seq<char>| exists|i: int| occurs_at(self.entries@, name, i),
            |name: Seq<char>| self.entries@[choose|i: int| occurs_at(self.entries@, name, i)].texture,
        )
    }
}

impl BlackBoard {
    #[verifier::type_invariant]
    spec fn names_are_unique(self) -> bool {
        forall|i: int, j: int|
            0 <= i < self.entries@.len() && 0 <= j < self.entries@.len()
                && #[trigger] self.entries@[i].name@ == #[trigger] self.entries@[j].name@ ==> i
                == j
    }

    /// A board without entries.
    pub fn new() -> (board: BlackBoard)
        ensures
            board@ == Map::<Seq<char>, TextureId>::empty(),
    {
        let board = BlackBoard { entries: Vec::new() };
        assert(board@ =~= Map::<Seq<char>, TextureId>::empty());
        board
    }

    fn position(&self, key: &String) -> (at: Option<usize>)
        ensures
            match at {
                Some(i) => occurs_at(self.entries@, key@, i as int),
                None => forall|i: int| !occurs_at(self.entries@, key@, i),
            },
    {
        let n = self.entries.len();
        let mut i: usize = 0;
        while i < n
            invariant
                n == self.entries@.len(),
                i <= n,
                forall|j: int| 0 <= j < i ==> !occurs_at(self.entries@, key@, j),
            decreases n - i,
        {
            if self.entries[i].name == *key {
                return Some(i);
            }
            i += 1;
        }
        None
    }

    /// Puts `texture` under `name`. An entry that was there under the same
    /// name is replaced, and its texture returned.
    pub fn insert(&mut self, name: &str, texture: TextureId) -> (previous: Option<TextureId>)
        ensures
            final(self)@ == old(self)@.insert(name@, texture),
            previous == if old(self)@.contains_key(name@) {
                Some(old(self)@[name@])
            } else {
                None::<TextureId>
            },
    {
        proof {
            use_type_invariant(&*self);
        }
        let key = String::from_str(name);
        let ghost before = self.entries@;
        let at = self.position(&key);
        let mut entries: Vec<Entry> = Vec::new();
        std::mem::swap(&mut entries, &mut self.entries);
        let previous = match at {
            Some(i) => {
                let previous = entries[i].texture;
                entries.set(i, Entry { name: key, texture });
                Some(previous)
            },
            None => {
                entries.push(Entry { name: key, texture });
                None
            },
        };
        let ghost after = entries@;
        proof {
            let at_int: int = match at {
                Some(i) => i as int,
                None => before.len() as int,
            };
            assert(occurs_at(after, name@, at_int));
            assert forall|n: Seq<char>, k: int| occurs_at(before, n, k) implies occurs_at(
                after,
                n,
                k,
            ) by {}
            assert forall|n: Seq<char>, k: int|
                occurs_at(after, n, k) && k != at_int implies occurs_at(before, n, k) by {}
            assert forall|i: int, j: int|
                0 <= i < after.len() && 0 <= j < after.len() && #[trigger] after[i].name@
                    == #[trigger] after[j].name@ implies i == j by {
                if i != at_int && j != at_int {
                    assert(before[i].name@ == before[j].name@);
                } else if i != at_int {
                    assert(occurs_at(before, name@, i));
                } else if j != at_int {
                    assert(occurs_at(before, name@, j));
                }
            }
        }
        self.entries = entries;
        proof {
            let at_int: int = match at {
                Some(i) => i as int,
                None => before.len() as int,
            };
            assert(self@ =~= old(self)@.insert(name@, texture)) by {
                assert forall|n: Seq<char>| #[trigger]
                    self@.contains_key(n) implies self@[n] == old(self)@.insert(name@, texture)[n] by {
                    let k = choose|k: int| occurs_at(after, n, k);
                    if n == name@ {
                        assert(k == at_int);
                    } else {
                        assert(occurs_at(before, n, k));
                        let k0 = choose|k: int| occurs_at(before, n, k);
                        assert(occurs_at(after, n, k0));
                        assert(k0 == k);
                    }
                }
            }
            if at is Some {
                let k0 = choose|k: int| occurs_at(before, name@, k);
                assert(k0 == at_int);
            }
        }
        previous
    }

    /// The texture under `name`, or `None` if nothing was put there.
    pub fn get(&self, name: &str) -> (texture: Option<TextureId>)
        ensures
            texture == if self@.contains_key(name@) {
                Some(self@[name@])
            } else {
                None::<TextureId>
            },
    {
        proof {
            use_type_invariant(self);
        }
        let key = String::from_str(name);
        match self.position(&key) {
            Some(i) => {
                proof {
                    let k = choose|k: int| occurs_at(self.entries@, name@, k);
                    assert(k == i);
                }
                Some(self.entries[i].texture)
            },
            None => None,
        }
    }
}

/// The board that comes of putting the entries of `inserts` on `board`, first
/// to last.
pub open spec fn inserted(
    board: Map<Seq<char>, TextureId>,
    inserts: Seq<(Seq<char>, TextureId)>,
) -> Map<Seq<char>, TextureId>
    decreases inserts.len(),
{
    if inserts.len() == 0 {
        board
    } else {
        inserted(board, inserts.drop_last()).insert(inserts.last().0, inserts.last().1)
    }
}

/// A name that was never inserted is absent: on a board that starts empty,
/// whatever is inserted under other names, nothing is found under `name`.
pub proof fn lemma_absent_without_insert(inserts: Seq<(Seq<char>, TextureId)>, name: Seq<char>)
    requires
        forall|i: int| 0 <= i < inserts.len() ==> (#[trigger] inserts[i]).0 != name,
    ensures
        !inserted(Map::empty(), inserts).contains_key(name),
    decreases inserts.len(),
{
    if inserts.len() > 0 {
        lemma_absent_without_insert(inserts.drop_last(), name);
        assert(inserts.last() == inserts[inserts.len() - 1]);
    }
}

/// The last writer wins: after any inserts, what is found under a name is
/// the texture of the last insert under that name.
pub proof fn lemma_last_insert_wins(
    board: Map<Seq<char>, TextureId>,
    inserts: Seq<(Seq<char>, TextureId)>,
    at: int,
)
    requires
        0 <= at < inserts.len(),
        forall|i: int| at < i < inserts.len() ==> (#[trigger] inserts[i]).0 != inserts[at].0,
    ensures
        inserted(board, inserts).contains_key(inserts[at].0),
        inserted(board, inserts)[inserts[at].0] == inserts[at].1,
    decreases inserts.len(),
{
    if at < inserts.len() - 1 {
        lemma_last_insert_wins(board, inserts.drop_last(), at);
        assert(inserts.last() == inserts[inserts.len() - 1]);
    }
}

} // verus!
