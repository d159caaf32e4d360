//! A guild's table of custom commands: at most one command per name, kept
//! in the order in which names were first defined.

use vstd::prelude::*;
use crate::text::same_text;

verus! {

/// A stored command: its name, its body and its description.
pub struct CommandEntry {
    pub name: String,
    pub body: String,
    pub description: String,
}

/// The plain content of a [`CommandEntry`]: name, body, description.
pub type EntryModel = (Seq<char>, Seq<char>, Seq<char>);

impl View for CommandEntry {
    type V = EntryModel;

    open spec fn view(&self) -> EntryModel {
        (self.name@, self.body@, self.description@)
    }
}

/// A guild's custom commands.
pub struct CommandTable {
    entries: Vec<CommandEntry>,
}

impl View for CommandTable {
    type V = Seq<EntryModel>;

    closed spec fn view(&self) -> Seq<EntryModel> {
        self.entries@.map_values(|e: CommandEntry| e@)
    }
}

/// No two entries share a name.
pub open spec fn names_unique(s: Seq<EntryModel>) -> bool {
    forall|i: int, j: int| 0 <= i < s.len() && 0 <= j < s.len() && i != j ==> s[i].0 != s[j].0
}

/// Whether an entry is named `name`.
pub open spec fn has_name(s: Seq<EntryModel>, name: Seq<char>) -> bool {
    exists|i: int| 0 <= i < s.len() && s[i].0 == name
}

/// The position of the entry named `name`, where there is one.
pub open spec fn position_of(s: Seq<EntryModel>, name: Seq<char>) -> int {
    choose|i: int| 0 <= i < s.len() && s[i].0 == name
}

/// The table after defining `name`: its entry is replaced where it exists,
/// and added at the end otherwise.
pub open spec fn put_model(s: Seq<EntryModel>, name: Seq<char>, body: Seq<char>, description: Seq<
    char,
>) -> Seq<EntryModel> {
    if has_name(s, name) {
        s.update(position_of(s, name), (name, body, description))
    } else {
        s.push((name, body, description))
    }
}

/// The table after removing `name`.
pub open spec fn remove_model(s: Seq<EntryModel>, name: Seq<char>) -> Seq<EntryModel> {
    if has_name(s, name) {
        s.remove(position_of(s, name))
    } else {
        s
    }
}

/// The listing of a table: each name with its description, in order.
pub open spec fn list_model(s: Seq<EntryModel>) -> Seq<(Seq<char>, Seq<char>)> {
    s.map_values(|e: EntryModel| (e.0, e.2))
}

/// The views of a list of string pairs.
pub open spec fn pairs_view(v: Seq<(String, String)>) -> Seq<(Seq<char>, Seq<char>)> {
    v.map_values(|p: (String, String)| (p.0@, p.1@))
}

impl CommandTable {
    pub open spec fn wf(&self) -> bool {
        names_unique(self@)
    }

    /// An empty table.
    pub fn new() -> (r: CommandTable)
        ensures
            r@ == Seq::<EntryModel>::empty(),
            r.wf(),
    {
        let r = CommandTable { entries: Vec::new() };
        assert(r@ =~= Seq::<EntryModel>::empty());
        r
    }

    /// The number of commands.
    pub fn len(&self) -> (r: usize)
        ensures
            r == self@.len(),
    {
        self.entries.len()
    }

    fn position(&self, name: &str) -> (r: Option<usize>)
        requires
            self.wf(),
        ensures
            r is None <==> !has_name(self@, name@),
            r matches Some(i) ==> i < self@.len() && self@[i as int].0 == name@ && i
                == position_of(self@, name@),
    {
        let mut i: usize = 0;
        while i < self.entries.len()
            invariant
                i <= self.entries.len(),
                self@ == self.entries@.map_values(|e: CommandEntry| e@),
                self.wf(),
                forall|j: int| 0 <= j < i ==> self@[j].0 != name@,
            decreases self.entries.len() - i,
        {
            if same_text(self.entries[i].name.as_str(), name) {
                assert(self@[i as int].0 == name@);
                let ghost k = position_of(self@, name@);
                assert(self@[k].0 == name@);
                return Some(i);
            }
            i = i + 1;
        }
        None
    }

    /// The command named `name`, if there is one.
    pub fn get(&self, name: &str) -> (r: Option<&CommandEntry>)
        requires
            self.wf(),
        ensures
            r is Some <==> has_name(self@, name@),
            r matches Some(e) ==> e@ == self@[position_of(self@, name@)],
    {
        match self.position(name) {
            Some(i) => Some(&self.entries[i]),
            None => None,
        }
    }

    /// Defines `name`, replacing its body and description where it exists;
    /// returns whether it existed.
    pub fn put(&mut self, name: String, body: String, description: String) -> (updated: bool)
        requires
            old(self).wf(),
        ensures
            updated == has_name(old(self)@, name@),
            final(self)@ == put_model(old(self)@, name@, body@, description@),
            final(self).wf(),
    {
        let ghost s = self@;
        let entry = CommandEntry { name, body, description };
        let ghost e = entry@;
        match self.position(entry.name.as_str()) {
            Some(i) => {
                self.entries.set(i, entry);
                assert(self@ =~= s.update(i as int, e));
                true
            },
            None => {
                self.entries.push(entry);
                assert(self@ =~= s.push(e));
                false
            },
        }
    }

    /// Removes `name`; returns whether it existed.
    pub fn remove(&mut self, name: &str) -> (removed: bool)
        requires
            old(self).wf(),
        ensures
            removed == has_name(old(self)@, name@),
            final(self)@ == remove_model(old(self)@, name@),
            final(self).wf(),
    {
        let ghost s = self@;
        match self.position(name) {
            Some(i) => {
                self.entries.remove(i);
                assert(self@ =~= s.remove(i as int));
                true
            },
            None => false,
        }
    }

    /// Each command's name with its description, in order.
    pub fn list(&self) -> (r: Vec<(String, String)>)
        ensures
            pairs_view(r@) == list_model(self@),
    {
        let mut r: Vec<(String, String)> = Vec::new();
        let mut i: usize = 0;
        while i < self.entries.len()
            invariant
                i <= self.entries.len(),
                self@ == self.entries@.map_values(|e: CommandEntry| e@),
                pairs_view(r@) == list_model(self@.subrange(0, i as int)),
            decreases self.entries.len() - i,
        {
            let e = &self.entries[i];
            let ghost before = r@;
            let pair = (e.name.clone(), e.description.clone());
            assert(pair.0@ == self@[i as int].0 && pair.1@ == self@[i as int].2);
            r.push(pair);
            proof {
                assert(r@ == before.push(pair));
                assert(pairs_view(r@) =~= pairs_view(before).push((pair.0@, pair.1@)));
                assert(self@.subrange(0, i + 1) =~= self@.subrange(0, i as int).push(self@[i as int]));
                assert(list_model(self@.subrange(0, i + 1)) =~= list_model(self@.subrange(0, i as int)).push(
                    (self@[i as int].0, self@[i as int].2),
                ));
            }
            i = i + 1;
        }
        assert(self@.subrange(0, i as int) =~= self@);
        r
    }
}

} // verus!
