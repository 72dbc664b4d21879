//! The table that resolves a speaker's name to the identifier that the
//! upstream service knows the voice by.

use vstd::prelude::*;
use vstd::string::StringExecFns;

verus! {

/// One voice: the name that clients ask for and the upstream identifier.
pub struct Speaker {
    pub name: String,
    pub id: String,
}

/// A name-to-identifier table. Its view is a map; an entry added later
/// replaces an earlier one of the same name.
pub struct SpeakerTable {
    entries: Vec<Speaker>,
}

/// The map that a list of entries stands for.
pub open spec fn table_of(entries: Seq<Speaker>) -> Map<Seq<char>, Seq<char>>
    decreases entries.len(),
{
    if entries.len() == 0 {
        Map::empty()
    } else {
        table_of(entries.drop_last()).insert(entries.last().name@, entries.last().id@)
    }
}

/// Entries after position `k` that do not carry `name` have no say in what
/// `name` resolves to.
proof fn lemma_table_skip(entries: Seq<Speaker>, name: Seq<char>, k: int)
    requires
        0 <= k <= entries.len(),
        forall|i: int| k <= i < entries.len() ==> (#[trigger] entries[i]).name@ != name,
    ensures
        table_of(entries).contains_key(name) == table_of(entries.take(k)).contains_key(name),
        table_of(entries).contains_key(name) ==> table_of(entries)[name] == table_of(
            entries.take(k),
        )[name],
    decreases entries.len() - k,
{
    if k < entries.len() {
        assert(entries.drop_last().take(k) =~= entries.take(k));
        lemma_table_skip(entries.drop_last(), name, k);
    } else {
        assert(entries.take(k) =~= entries);
    }
}

impl View for SpeakerTable {
    type V = Map<Seq<char>, Seq<char>>;

    closed spec fn view(&self) -> Map<Seq<char>, Seq<char>> {
        table_of(self.entries@)
    }
}

impl SpeakerTable {
    /// A table that knows no speaker.
    pub fn new() -> (table: Self)
        ensures
            table@ == Map::<Seq<char>, Seq<char>>::empty(),
    {
        SpeakerTable { entries: Vec::new() }
    }

    /// Makes `name` resolve to `id`.
    pub fn insert(&mut self, name: &str, id: &str)
        ensures
            final(self)@ == old(self)@.insert(name@, id@),
    {
        let entry = Speaker { name: String::from_str(name), id: String::from_str(id) };
        self.entries.push(entry);
        assert(self.entries@.drop_last() =~= old(self).entries@);
    }

    /// The identifier that `name` resolves to, if the table knows the name.
    pub fn get_speaker_id(&self, name: &str) -> (id: Option<String>)
        ensures
            id is Some == self@.contains_key(name@),
            id matches Some(found) ==> found@ == self@[name@],
    {
        let wanted = String::from_str(name);
        let mut i: usize = self.entries.len();
        while i > 0
            invariant
                i <= self.entries.len(),
                wanted@ == name@,
                forall|j: int| i <= j < self.entries.len() ==> (#[trigger] self.entries@[j]).name@ != name@,
            decreases i,
        {
            i = i - 1;
            if self.entries[i].name == wanted {
                proof {
                    lemma_table_skip(self.entries@, name@, i + 1);
                    assert(self.entries@.take(i + 1).drop_last() =~= self.entries@.take(i as int));
                }
                return Some(self.entries[i].id.clone());
            }
        }
        proof {
            lemma_table_skip(self.entries@, name@, 0);
            assert(self.entries@.take(0) =~= Seq::<Speaker>::empty());
        }
        None
    }
}

} // verus!
