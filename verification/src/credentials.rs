//! A small store of credentials, one JSON value for each vendor, that is
//! kept in a file between runs. The store decides and holds; reading and
//! writing the file is the caller's part.

use crate::text::text_view;
use vstd::prelude::*;

verus! {

/// What `serde_json` makes of `text` as a JSON object: its members by name,
/// or `None` where `text` is not a JSON object.
pub uninterp spec fn json_object(text: Seq<char>) -> Option<Map<Seq<char>, serde_json::Value>>;

/// No name occurs twice among `pairs`.
pub open spec fn names_distinct(pairs: Seq<(String, serde_json::Value)>) -> bool {
    forall|i: int, j: int|
        0 <= i < j < pairs.len() ==> (#[trigger] pairs[i]).0@ != (#[trigger] pairs[j]).0@
}

/// The members that `pairs` lists, by name. Of two members of one name the
/// later one counts.
pub open spec fn map_of(pairs: Seq<(String, serde_json::Value)>) -> Map<
    Seq<char>,
    serde_json::Value,
>
    decreases pairs.len(),
{
    if pairs.len() == 0 {
        Map::empty()
    } else {
        map_of(pairs.drop_last()).insert(pairs.last().0@, pairs.last().1)
    }
}

/// The name `name` is that of no member of `pairs`.
pub open spec fn absent(pairs: Seq<(String, serde_json::Value)>, name: Seq<char>) -> bool {
    forall|i: int| 0 <= i < pairs.len() ==> (#[trigger] pairs[i]).0@ != name
}

/// A name that none of the members has is not in the map.
pub proof fn lemma_map_of_absent(pairs: Seq<(String, serde_json::Value)>, name: Seq<char>)
    requires
        absent(pairs, name),
    ensures
        !map_of(pairs).dom().contains(name),
    decreases pairs.len(),
{
    if pairs.len() > 0 {
        assert(pairs.last() == pairs[pairs.len() - 1]);
        assert forall|i: int| 0 <= i < pairs.drop_last().len() implies (
        #[trigger] pairs.drop_last()[i]).0@ != name by {
            assert(pairs.drop_last()[i] == pairs[i]);
        }
        lemma_map_of_absent(pairs.drop_last(), name);
    }
}

/// The member at `i` is the last of its name among `pairs`.
pub open spec fn last_of_its_name(pairs: Seq<(String, serde_json::Value)>, i: int) -> bool {
    &&& 0 <= i < pairs.len()
    &&& forall|j: int| i < j < pairs.len() ==> (#[trigger] pairs[j]).0@ != pairs[i].0@
}

/// The last member of a name is in the map with its own value.
pub proof fn lemma_map_of_member(pairs: Seq<(String, serde_json::Value)>, i: int)
    requires
        last_of_its_name(pairs, i),
    ensures
        map_of(pairs).dom().contains(pairs[i].0@),
        map_of(pairs)[pairs[i].0@] == pairs[i].1,
    decreases pairs.len(),
{
    let front = pairs.drop_last();
    if i < pairs.len() - 1 {
        assert forall|j: int| i < j < front.len() implies (#[trigger] front[j]).0@
            != front[i].0@ by {
            assert(front[j] == pairs[j] && front[i] == pairs[i]);
        }
        lemma_map_of_member(front, i);
        assert(front[i] == pairs[i]);
        assert(pairs[pairs.len() - 1].0@ != pairs[i].0@);
    }
}

/// Giving the last member of a name a new value changes the map at that
/// name and nowhere else, and brings no name in twice.
pub proof fn lemma_map_of_update(
    pairs: Seq<(String, serde_json::Value)>,
    i: int,
    member: (String, serde_json::Value),
)
    requires
        last_of_its_name(pairs, i),
        member.0@ == pairs[i].0@,
    ensures
        map_of(pairs.update(i, member)) == map_of(pairs).insert(member.0@, member.1),
        names_distinct(pairs) ==> names_distinct(pairs.update(i, member)),
    decreases pairs.len(),
{
    let updated = pairs.update(i, member);
    if names_distinct(pairs) {
        assert forall|a: int, b: int| 0 <= a < b < updated.len() implies (
        #[trigger] updated[a]).0@ != (#[trigger] updated[b]).0@ by {
            assert(pairs[a].0@ != pairs[b].0@);
        }
    }
    let front = pairs.drop_last();
    let last = pairs.len() - 1;
    if i == last {
        assert(updated.drop_last() =~= front);
        assert(map_of(updated) =~= map_of(pairs).insert(member.0@, member.1));
    } else {
        assert forall|j: int| i < j < front.len() implies (#[trigger] front[j]).0@
            != front[i].0@ by {
            assert(front[j] == pairs[j] && front[i] == pairs[i]);
        }
        lemma_map_of_update(front, i, member);
        assert(updated.drop_last() =~= front.update(i, member));
        assert(updated.last() == pairs.last());
        assert(pairs[last].0@ != pairs[i].0@);
        assert(map_of(updated) =~= map_of(pairs).insert(member.0@, member.1));
    }
}

/// A member of a new name brings no name in twice.
pub proof fn lemma_push_distinct(
    pairs: Seq<(String, serde_json::Value)>,
    member: (String, serde_json::Value),
)
    requires
        names_distinct(pairs),
        absent(pairs, member.0@),
    ensures
        names_distinct(pairs.push(member)),
{
    let pushed = pairs.push(member);
    assert forall|a: int, b: int| 0 <= a < b < pushed.len() implies (#[trigger] pushed[a]).0@ != (
    #[trigger] pushed[b]).0@ by {
        if b < pairs.len() {
            assert(pairs[a].0@ != pairs[b].0@);
        } else {
            assert(pairs[a].0@ != member.0@);
        }
    }
}

/// Calls `serde_json::from_str` for a `HashMap<String, serde_json::Value>`
/// and hands its entries out, each once and in no particular order. The
/// contract gives the map that `serde_json` made its name and says that the
/// entries handed out are that map's: a hash map holds no key twice.
#[verifier::external_body]
fn parse_object(contents: &str) -> (r: Option<Vec<(String, serde_json::Value)>>)
    ensures
        match json_object(contents@) {
            Some(members) => r matches Some(pairs) && names_distinct(pairs@) && map_of(pairs@)
                == members,
            None => r is None,
        },
{
    match serde_json::from_str::<std::collections::HashMap<String, serde_json::Value>>(contents) {
        Ok(values) => Some(values.into_iter().collect()),
        Err(_) => None,
    }
}

/// What `serde_json` writes for the JSON object that has the members
/// `members`, each member once and in the order of the names, or `None`
/// where it cannot write them.
pub uninterp spec fn object_text(members: Map<Seq<char>, serde_json::Value>) -> Option<Seq<char>>;

/// Calls `serde_json::to_string` on the members, gathered in a
/// `BTreeMap<&String, &serde_json::Value>`; as no name occurs twice, each
/// member is an entry of its own. A `BTreeMap` is walked in the order of its
/// keys, so that the text depends on the members alone and not on the order
/// in which they are kept. The contract gives the text its name and claims
/// nothing more of it.
#[verifier::external_body]
fn write_object(pairs: &Vec<(String, serde_json::Value)>) -> (r: Option<String>)
    requires
        names_distinct(pairs@),
    ensures
        text_view(r) == object_text(map_of(pairs@)),
{
    let values: std::collections::BTreeMap<&String, &serde_json::Value> = pairs.iter().map(
        |p| (&p.0, &p.1),
    ).collect();
    serde_json::to_string(&values).ok()
}

/// What a lookup in the store comes to.
#[derive(Debug)]
pub enum Lookup<'a> {
    /// The file has not been read yet: read it, hand what was read to
    /// [`Credentials::load`] and look up again.
    Unloaded,
    /// The value kept under the name, if there is one.
    Found(Option<&'a serde_json::Value>),
}

/// The store: the values by name, and whether the file has been read.
#[derive(Debug)]
pub struct Credentials {
    is_loaded: bool,
    values: Vec<(String, serde_json::Value)>,
}

impl Credentials {
    #[verifier::type_invariant]
    spec fn no_name_twice(self) -> bool {
        names_distinct(self.values@)
    }

    /// Whether the file has been read.
    pub closed spec fn loaded(&self) -> bool {
        self.is_loaded
    }

    /// The values kept, by name.
    pub closed spec fn entries(&self) -> Map<Seq<char>, serde_json::Value> {
        map_of(self.values@)
    }

    /// An empty store that has yet to read its file.
    pub fn new() -> (r: Self)
        ensures
            !r.loaded(),
            r.entries() == Map::<Seq<char>, serde_json::Value>::empty(),
    {
        Credentials { is_loaded: false, values: Vec::new() }
    }

    /// Whether the file has been read.
    pub fn is_loaded(&self) -> (r: bool)
        ensures
            r == self.loaded(),
    {
        self.is_loaded
    }

    /// Where the last member of the name `key` stands, if there is one.
    fn position(&self, key: &str) -> (r: Option<usize>)
        ensures
            match r {
                Some(i) => last_of_its_name(self.values@, i as int) && self.values@[i as int].0@
                    == key@,
                None => absent(self.values@, key@),
            },
    {
        let name = String::from_str(key);
        let mut i: usize = self.values.len();
        while i > 0
            invariant
                i <= self.values@.len(),
                name@ == key@,
                forall|j: int| i <= j < self.values@.len() ==> (#[trigger] self.values@[j]).0@
                    != key@,
            decreases i,
        {
            i = i - 1;
            if self.values[i].0 == name {
                return Some(i);
            }
        }
        None
    }

    /// Takes in what was read from the file: `None` where there is no file
    /// or it could not be read. The members of a JSON object replace all
    /// that the store holds; any other contents change nothing. Either way
    /// the file counts as read from now on.
    pub fn load(&mut self, contents: Option<&str>)
        ensures
            final(self).loaded(),
            final(self).entries() == match contents {
                Some(text) => match json_object(text@) {
                    Some(members) => members,
                    None => old(self).entries(),
                },
                None => old(self).entries(),
            },
    {
        proof {
            use_type_invariant(&*self);
        }
        let mut store = Credentials::new();
        std::mem::swap(self, &mut store);
        let Credentials { is_loaded: _, values: kept } = store;
        let values = match contents {
            Some(text) => match parse_object(text) {
                Some(pairs) => pairs,
                None => kept,
            },
            None => kept,
        };
        *self = Credentials { is_loaded: true, values };
    }

    /// The value kept under `key`, once the file has been read.
    pub fn get<'a>(&'a self, key: &str) -> (r: Lookup<'a>)
        ensures
            !self.loaded() ==> r is Unloaded,
            self.loaded() ==> (r matches Lookup::Found(found) && match found {
                Some(value) => self.entries().dom().contains(key@) && self.entries()[key@]
                    == *value,
                None => !self.entries().dom().contains(key@),
            }),
    {
        if !self.is_loaded {
            return Lookup::Unloaded;
        }
        match self.position(key) {
            Some(i) => {
                proof {
                    lemma_map_of_member(self.values@, i as int);
                }
                Lookup::Found(Some(&self.values[i].1))
            },
            None => {
                proof {
                    lemma_map_of_absent(self.values@, key@);
                }
                Lookup::Found(None)
            },
        }
    }

    /// Keeps `value` under `key`, in place of what was kept there, and
    /// returns the text to write to the file: the JSON object of all that is
    /// kept now, if it could be written.
    pub fn set(&mut self, key: &str, value: serde_json::Value) -> (contents: Option<String>)
        ensures
            final(self).loaded() == old(self).loaded(),
            final(self).entries() == old(self).entries().insert(key@, value),
            text_view(contents) == object_text(final(self).entries()),
    {
        proof {
            use_type_invariant(&*self);
        }
        let member = (String::from_str(key), value);
        let position = self.position(key);
        let mut store = Credentials::new();
        std::mem::swap(self, &mut store);
        let Credentials { is_loaded, values } = store;
        let mut values = values;
        match position {
            Some(i) => {
                proof {
                    lemma_map_of_update(values@, i as int, member);
                }
                values.set(i, member);
            },
            None => {
                proof {
                    assert(values@.push(member).drop_last() =~= values@);
                    lemma_push_distinct(values@, member);
                }
                values.push(member);
            },
        }
        *self = Credentials { is_loaded, values };
        self.save()
    }

    /// The text to write to the file: the JSON object whose members are the
    /// values kept, by name, if it can be written.
    pub fn save(&self) -> (contents: Option<String>)
        ensures
            text_view(contents) == object_text(self.entries()),
    {
        proof {
            use_type_invariant(self);
        }
        write_object(&self.values)
    }
}

impl Default for Credentials {
    fn default() -> (r: Self)
        ensures
            !r.loaded(),
            r.entries() == Map::<Seq<char>, serde_json::Value>::empty(),
    {
        Self::new()
    }
}

} // verus!
