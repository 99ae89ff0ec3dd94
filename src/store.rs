use vstd::prelude::*;
use vstd::string::StringExecFns;
use crate::snippet::{Snippet, SnippetModel, models};

verus! {

/// The file's directory under the per-user local data directory.
pub const DATA_DIR_NAME: &'static str = "chopsticks";

/// The file's name within its directory.
pub const FILE_NAME: &'static str = "snippets.toml";

/// The key under which the file holds the snippet list.
pub open spec fn snippets_key() -> Seq<char> {
    "snippets"@
}

/// A record as the file holds it: the priority may be missing.
pub struct StoredModel {
    pub priority: Option<int>,
    pub cmd: Seq<char>,
    pub description: Seq<char>,
}

/// One record as read from or written to the file.
#[derive(Debug)]
pub struct StoredSnippet {
    pub priority: Option<i64>,
    pub cmd: String,
    pub description: String,
}

impl View for StoredSnippet {
    type V = StoredModel;

    open spec fn view(&self) -> StoredModel {
        StoredModel {
            priority: match self.priority {
                Some(p) => Some(p as int),
                None => None,
            },
            cmd: self.cmd@,
            description: self.description@,
        }
    }
}

/// The snippet a record stands for: a missing priority is 0.
pub open spec fn snippet_of_record(r: StoredModel) -> SnippetModel {
    SnippetModel {
        priority: match r.priority {
            Some(p) => p,
            None => 0,
        },
        cmd: r.cmd,
        description: r.description,
    }
}

/// The record that stores a snippet, priority included.
pub open spec fn record_of_snippet(s: SnippetModel) -> StoredModel {
    StoredModel { priority: Some(s.priority), cmd: s.cmd, description: s.description }
}

impl StoredSnippet {
    /// The record that stores `s`.
    pub fn from_snippet(s: &Snippet) -> (r: StoredSnippet)
        ensures
            r@ == record_of_snippet(s@),
    {
        StoredSnippet { priority: Some(s.priority), cmd: s.cmd.clone(), description: s.description.clone() }
    }

    /// The snippet this record stands for; a missing priority becomes 0.
    pub fn to_snippet(&self) -> (r: Snippet)
        ensures
            r@ == snippet_of_record(self@),
    {
        let priority: i64 = match self.priority {
            Some(p) => p,
            None => 0,
        };
        Snippet { priority, cmd: self.cmd.clone(), description: self.description.clone() }
    }
}

/// The content of a snippet file as a list of named record lists.
pub type FileModel = Seq<(Seq<char>, Seq<StoredModel>)>;

/// No two lists of the file share a name.
pub open spec fn keys_unique(f: FileModel) -> bool {
    forall|i: int, j: int| 0 <= i < f.len() && 0 <= j < f.len() && f[i].0 == f[j].0 ==> i == j
}

/// The list stored under `key`, or an empty list where there is none.
pub open spec fn list_under(f: FileModel, key: Seq<char>) -> Seq<StoredModel> {
    if exists|i: int| 0 <= i < f.len() && f[i].0 == key {
        f[choose|i: int| 0 <= i < f.len() && f[i].0 == key].1
    } else {
        Seq::empty()
    }
}

/// The snippets that a file's content loads as.
pub open spec fn loaded(f: FileModel) -> Seq<SnippetModel> {
    list_under(f, snippets_key()).map_values(|r: StoredModel| snippet_of_record(r))
}

/// The file's content that saving a snippet list writes: that list, as
/// records, under the single key `snippets`.
pub open spec fn saved(s: Seq<SnippetModel>) -> FileModel {
    seq![(snippets_key(), s.map_values(|m: SnippetModel| record_of_snippet(m)))]
}

/// The content of a snippet file: a mapping from names to ordered record
/// lists, kept in the order in which the names were first given.
#[derive(Debug)]
pub struct SnippetFile {
    pub lists: Vec<(String, Vec<StoredSnippet>)>,
}

impl View for SnippetFile {
    type V = FileModel;

    open spec fn view(&self) -> FileModel {
        self.lists@.map_values(|e: (String, Vec<StoredSnippet>)| (e.0@, e.1@.map_values(|r: StoredSnippet| r@)))
    }
}

impl SnippetFile {
    /// Each name stands once.
    pub open spec fn wf(&self) -> bool {
        keys_unique(self@)
    }

    /// A file with no lists: the content of an empty file.
    pub fn new() -> (r: SnippetFile)
        ensures
            r@ == Seq::<(Seq<char>, Seq<StoredModel>)>::empty(),
            r.wf(),
    {
        SnippetFile { lists: Vec::new() }
    }

    /// The position of the list named `key`, if there is one.
    fn position(&self, key: &String) -> (r: Option<usize>)
        ensures
            match r {
                Some(i) => i < self@.len() && self@[i as int].0 == key@,
                None => forall|i: int| 0 <= i < self@.len() ==> self@[i].0 != key@,
            },
    {
        let mut i: usize = 0;
        while i < self.lists.len()
            invariant
                i <= self.lists@.len(),
                forall|k: int| 0 <= k < i ==> self@[k].0 != key@,
            decreases self.lists@.len() - i,
        {
            if self.lists[i].0 == *key {
                return Some(i);
            }
            i = i + 1;
        }
        None
    }

    /// Puts `list` under `key`, in place of any list that had that name.
    pub fn insert(&mut self, key: String, list: Vec<StoredSnippet>)
        requires
            old(self).wf(),
        ensures
            final(self).wf(),
            list_under(final(self)@, key@) == list@.map_values(|r: StoredSnippet| r@),
            forall|k: Seq<char>| k != key@ ==> list_under(final(self)@, k) == list_under(old(self)@, k),
    {
        let ghost entry = (key@, list@.map_values(|r: StoredSnippet| r@));
        let ghost g = old(self)@;
        let ghost idx: int;
        match self.position(&key) {
            Some(i) => {
                self.lists.set(i, (key, list));
                assert(self@ =~= g.update(i as int, entry));
                proof {
                    idx = i as int;
                }
            },
            None => {
                self.lists.push((key, list));
                assert(self@ =~= g.push(entry));
                proof {
                    idx = g.len() as int;
                }
            },
        }
        let ghost f = self@;
        assert(f.len() == g.len() || f.len() == g.len() + 1);
        assert(forall|j: int| 0 <= j < f.len() && j != idx ==> f[j] == g[j]);
        assert(f[idx] == entry);
        assert(keys_unique(f));
        let ghost j = choose|j: int| 0 <= j < f.len() && f[j].0 == key@;
        assert(j == idx);
        assert forall|k: Seq<char>| k != key@ implies list_under(f, k) == list_under(g, k) by {
            if exists|j: int| 0 <= j < g.len() && g[j].0 == k {
                let j = choose|j: int| 0 <= j < g.len() && g[j].0 == k;
                assert(f[j].0 == k);
            }
            if exists|j: int| 0 <= j < f.len() && f[j].0 == k {
                let j = choose|j: int| 0 <= j < f.len() && f[j].0 == k;
                assert(g[j].0 == k);
            }
        }
    }

    /// Takes the snippet list out of the file, as loading does: the list under
    /// `snippets`, each record with a missing priority taken as 0, or an empty
    /// list where the file has no such key.
    pub fn to_snippets(&self) -> (r: Vec<Snippet>)
        requires
            self.wf(),
        ensures
            models(r@) == loaded(self@),
    {
        let key = String::from_str("snippets");
        let ghost f = self@;
        match self.position(&key) {
            Some(i) => {
                let records = &self.lists[i].1;
                let ghost all = list_under(f, snippets_key());
                assert(records@.map_values(|r: StoredSnippet| r@) == all);
                let mut out: Vec<Snippet> = Vec::new();
                let mut k: usize = 0;
                while k < records.len()
                    invariant
                        k <= records@.len(),
                        records@.len() == all.len(),
                        out@.len() == k,
                        forall|t: int| 0 <= t < records@.len() ==> records@[t]@ == all[t],
                        forall|t: int| 0 <= t < k ==> out@[t]@ == snippet_of_record(all[t]),
                    decreases records@.len() - k,
                {
                    out.push(records[k].to_snippet());
                    k = k + 1;
                }
                assert(models(out@) =~= loaded(f));
                out
            },
            None => {
                let out: Vec<Snippet> = Vec::new();
                assert(models(out@) =~= loaded(f));
                out
            },
        }
    }

    /// The file's content that saving `snippets` writes: the whole list, in
    /// order, under the single key `snippets`.
    pub fn from_snippets(snippets: &Vec<Snippet>) -> (r: SnippetFile)
        ensures
            r.wf(),
            r@ == saved(models(snippets@)),
    {
        let mut records: Vec<StoredSnippet> = Vec::new();
        let mut i: usize = 0;
        while i < snippets.len()
            invariant
                i <= snippets@.len(),
                records@.len() == i,
                forall|k: int| 0 <= k < i ==> records@[k]@ == record_of_snippet(snippets@[k]@),
            decreases snippets@.len() - i,
        {
            records.push(StoredSnippet::from_snippet(&snippets[i]));
            i = i + 1;
        }
        let mut lists: Vec<(String, Vec<StoredSnippet>)> = Vec::new();
        lists.push((String::from_str("snippets"), records));
        let r = SnippetFile { lists };
        assert(records@.map_values(|x: StoredSnippet| x@) =~= models(snippets@).map_values(
            |m: SnippetModel| record_of_snippet(m),
        ));
        assert(r@ =~= saved(models(snippets@)));
        r
    }
}

/// Saving a list and loading what was saved gives the same list back, field
/// for field and in order, empty texts and the empty list included.
pub proof fn lemma_save_load_round_trip(s: Seq<SnippetModel>)
    ensures
        loaded(saved(s)) == s,
{
    let f = saved(s);
    assert(f[0].0 == snippets_key());
    let i = choose|i: int| 0 <= i < f.len() && f[i].0 == snippets_key();
    assert(i == 0);
    assert(loaded(f) =~= s);
}

/// A record stored without a priority loads with priority 0.
pub proof fn lemma_missing_priority_is_zero(r: StoredModel)
    requires
        r.priority is None,
    ensures
        snippet_of_record(r).priority == 0,
        snippet_of_record(r).cmd == r.cmd,
        snippet_of_record(r).description == r.description,
{
}

/// A file with no `snippets` key loads as the empty list.
pub proof fn lemma_missing_key_loads_empty(f: FileModel)
    requires
        forall|i: int| 0 <= i < f.len() ==> f[i].0 != snippets_key(),
    ensures
        loaded(f) == Seq::<SnippetModel>::empty(),
{
    assert(loaded(f) =~= Seq::<SnippetModel>::empty());
}

} // verus!
