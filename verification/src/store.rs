use vstd::prelude::*;
use vstd::hash_map::StringHashMap;
use vstd::string::*;

use crate::error::{ErrorType, RuntimeError, RuntimeErrorView};
use crate::fs::{join_path, path_join};

verus! {

/// What reading one file of the store's directory gave: the failure met on
/// the way, or the container id (the file's name) and the record parsed
/// from its contents.
pub enum DirEntryOutcome<V> {
    /// The directory entry itself could not be read; the error's text.
    Unreadable(String),
    /// The entry has no file name that is valid text.
    Unnamed,
    /// The file could not be read; the error's text.
    ReadFailed(String),
    /// The file's contents are not a record; the parse error's text.
    Malformed(String),
    /// The container id and its record.
    Loaded(String, V),
}

/// The message of the error for a file without a usable name.
pub open spec fn unnamed_message() -> Seq<char> {
    "Failed to extract container ID"@
}

/// The message of the error for a name that the store does not hold.
pub open spec fn not_found_message() -> Seq<char> {
    "Entry not found"@
}

/// An error of the runtime with the given message, as plain values.
pub open spec fn runtime_error_view(message: Seq<char>) -> RuntimeErrorView {
    RuntimeErrorView { message, error_type: ErrorType::Runtime }
}

/// What one directory entry contributes: a record to insert, or the error
/// that stops the load.
pub open spec fn outcome_effect<V>(o: DirEntryOutcome<V>) -> Result<(Seq<char>, V), RuntimeErrorView> {
    match o {
        DirEntryOutcome::Unreadable(m) => Err(runtime_error_view(m@)),
        DirEntryOutcome::Unnamed => Err(runtime_error_view(unnamed_message())),
        DirEntryOutcome::ReadFailed(m) => Err(runtime_error_view(m@)),
        DirEntryOutcome::Malformed(m) => Err(runtime_error_view(m@)),
        DirEntryOutcome::Loaded(id, v) => Ok((id@, v)),
    }
}

/// Loading the entries in order into `records`: each record is inserted under
/// its id until the first failure, which ends the load with its error.
pub open spec fn load_spec<V>(records: Map<Seq<char>, V>, os: Seq<DirEntryOutcome<V>>) -> (
    Map<Seq<char>, V>,
    Option<RuntimeErrorView>,
)
    decreases os.len(),
{
    if os.len() == 0 {
        (records, None)
    } else {
        match outcome_effect(os[0]) {
            Err(e) => (records, Some(e)),
            Ok((id, v)) => load_spec(records.insert(id, v), os.drop_first()),
        }
    }
}

/// What persisting `name` finds: the file to write and the record to write
/// there, or the error for a name the store does not hold.
pub open spec fn persist_spec<V>(records: Map<Seq<char>, V>, json_dir: Seq<char>, name: Seq<char>) -> Result<
    (Seq<char>, V),
    RuntimeErrorView,
> {
    if records.contains_key(name) {
        Ok((path_join(json_dir, name), records[name]))
    } else {
        Err(runtime_error_view(not_found_message()))
    }
}

/// The path without its trailing separators and trailing `.` components.
pub open spec fn strip_path_tail(s: Seq<char>) -> Seq<char>
    decreases s.len(),
{
    if s.len() > 0 && s.last() == '/' {
        strip_path_tail(s.drop_last())
    } else if s.len() > 0 && s.last() == '.' && (s.len() == 1 || s[s.len() - 2] == '/') {
        strip_path_tail(s.drop_last())
    } else {
        s
    }
}

/// What follows the last `/` of the path (all of it when it has none).
pub open spec fn after_last_separator(s: Seq<char>) -> Seq<char>
    decreases s.len(),
{
    if s.len() == 0 {
        s
    } else if s.last() == '/' {
        Seq::empty()
    } else {
        after_last_separator(s.drop_last()).push(s.last())
    }
}

/// The final component of a Unix path, as `Path::file_name` gives it: the
/// last component once trailing separators and `.` components are dropped;
/// none for an empty path, the root, or a path that ends in `..`.
pub open spec fn path_file_name(s: Seq<char>) -> Option<Seq<char>> {
    let name = after_last_separator(strip_path_tail(s));
    if name.len() == 0 || name == seq!['.', '.'] {
        None
    } else {
        Some(name)
    }
}

/// The container id of a record's file: the file's name (the final
/// component of its path); `None` where the path has no file name.
pub fn container_id_of(path: &str) -> (r: Option<String>)
    ensures
        match r {
            Some(id) => path_file_name(path@) == Some(id@),
            None => path_file_name(path@) is None,
        },
{
    let ghost s = path@;
    let n = path.unicode_len();
    let mut end: usize = n;
    assert(s.subrange(0, n as int) == s);
    while end > 0 && (path.get_char(end - 1) == '/' || (path.get_char(end - 1) == '.' && (end == 1
        || path.get_char(end - 2) == '/')))
        invariant
            n == s.len(),
            s == path@,
            end <= n,
            strip_path_tail(s) == strip_path_tail(s.subrange(0, end as int)),
        decreases end,
    {
        let ghost t = s.subrange(0, end as int);
        assert(t.drop_last() == s.subrange(0, end - 1));
        assert(t.last() == s[end - 1]);
        if end >= 2 {
            assert(t[t.len() - 2] == s[end - 2]);
        }
        end = end - 1;
    }
    let ghost t = s.subrange(0, end as int);
    assert(strip_path_tail(t) == t) by {
        if end > 0 {
            assert(t.last() == s[end - 1]);
            if end >= 2 {
                assert(t[t.len() - 2] == s[end - 2]);
            }
        }
    }
    let mut start: usize = end;
    assert(t.subrange(end as int, end as int) == Seq::<char>::empty());
    while start > 0 && path.get_char(start - 1) != '/'
        invariant
            n == s.len(),
            s == path@,
            start <= end <= n,
            t == s.subrange(0, end as int),
            after_last_separator(t) == after_last_separator(s.subrange(0, start as int)) + s.subrange(
                start as int,
                end as int,
            ),
        decreases start,
    {
        let ghost u = s.subrange(0, start as int);
        assert(u.drop_last() == s.subrange(0, start - 1));
        assert(u.last() == s[start - 1]);
        assert(after_last_separator(u) == after_last_separator(s.subrange(0, start - 1)).push(s[start - 1]));
        assert(s.subrange(start - 1, end as int) == seq![s[start - 1]] + s.subrange(start as int, end as int));
        assert(after_last_separator(s.subrange(0, start - 1)).push(s[start - 1]) + s.subrange(start as int, end as int)
            == after_last_separator(s.subrange(0, start - 1)) + s.subrange(start - 1, end as int));
        start = start - 1;
    }
    let ghost u = s.subrange(0, start as int);
    assert(after_last_separator(u) == Seq::<char>::empty()) by {
        if start > 0 {
            assert(u.last() == s[start - 1]);
        }
    }
    assert(after_last_separator(t) == s.subrange(start as int, end as int));
    if start == end {
        return None;
    }
    if end - start == 2 && path.get_char(start) == '.' && path.get_char(start + 1) == '.' {
        assert(s.subrange(start as int, end as int) == seq!['.', '.']);
        return None;
    }
    let name = path.substring_char(start, end);
    proof {
        if s.subrange(start as int, end as int) == seq!['.', '.'] {
            assert(s.subrange(start as int, end as int)[0] == s[start as int]);
            assert(s.subrange(start as int, end as int)[1] == s[start + 1]);
        }
    }
    Some(String::from_str(name))
}

/// The records of containers, each kept under its container id and persisted
/// as a file of that name in one directory.
#[verifier::reject_recursive_types(V)]
pub struct Store<V> {
    map: StringHashMap<V>,
    json_dir: String,
}

impl<V> Store<V> {
    /// The records, by container id.
    pub closed spec fn records(&self) -> Map<Seq<char>, V> {
        self.map@
    }

    /// The directory that holds the records' files.
    pub closed spec fn dir(&self) -> Seq<char> {
        self.json_dir@
    }

    /// An empty store whose files live in `json_dir`.
    pub fn new(json_dir: &str) -> (s: Self)
        ensures
            s.records() == Map::<Seq<char>, V>::empty(),
            s.dir() == json_dir@,
    {
        Store { map: StringHashMap::new(), json_dir: String::from_str(json_dir) }
    }

    /// Takes in one entry of the directory: inserts its record, or leaves the
    /// records unchanged and returns the entry's error.
    pub fn load_entry(&mut self, outcome: DirEntryOutcome<V>) -> (r: Result<(), RuntimeError>)
        ensures
            final(self).dir() == old(self).dir(),
            match outcome_effect(outcome) {
                Ok((id, v)) => r is Ok && final(self).records() == old(self).records().insert(id, v),
                Err(e) => r matches Err(err) && err@ == e && final(self).records() == old(self).records(),
            },
            outcome is Loaded ==> (r is Ok && final(self).records() == old(self).records().insert(
                outcome->Loaded_0@,
                outcome->Loaded_1,
            )),
            !(outcome is Loaded) ==> (r is Err && final(self).records() == old(self).records()),
    {
        match outcome {
            DirEntryOutcome::Unreadable(m) => Err(RuntimeError::runtime(m)),
            DirEntryOutcome::Unnamed => Err(
                RuntimeError::runtime(String::from_str("Failed to extract container ID")),
            ),
            DirEntryOutcome::ReadFailed(m) => Err(RuntimeError::runtime(m)),
            DirEntryOutcome::Malformed(m) => Err(RuntimeError::runtime(m)),
            DirEntryOutcome::Loaded(id, v) => {
                self.map.insert(id, v);
                Ok(())
            },
        }
    }

    /// Loads the entries of the directory in order, stopping at the first
    /// one that fails; the records loaded before it stay.
    pub fn load(&mut self, outcomes: Vec<DirEntryOutcome<V>>) -> (r: Result<(), RuntimeError>)
        ensures
            final(self).dir() == old(self).dir(),
            final(self).records() == load_spec(old(self).records(), outcomes@).0,
            match load_spec(old(self).records(), outcomes@).1 {
                None => r is Ok,
                Some(e) => r matches Err(err) && err@ == e,
            },
    {
        let ghost all = outcomes@;
        let mut rest = outcomes;
        while rest.len() > 0
            invariant
                self.dir() == old(self).dir(),
                all == outcomes@,
                load_spec(old(self).records(), all) == load_spec(self.records(), rest@),
            decreases rest.len(),
        {
            let ghost before = rest@;
            let o = rest.remove(0);
            assert(rest@ == before.drop_first());
            assert(o == before[0]);
            match self.load_entry(o) {
                Ok(()) => {},
                Err(e) => {
                    return Err(e);
                },
            }
        }
        Ok(())
    }

    /// Finds what persisting `name` writes: the path of its file and its
    /// record; fails when the store holds no record of that name.
    pub fn persist_target(&self, name: &str) -> (r: Result<(String, &V), RuntimeError>)
        ensures
            match persist_spec(self.records(), self.dir(), name@) {
                Ok((path, v)) => r matches Ok((p, rv)) && p@ == path && *rv == v,
                Err(e) => r matches Err(err) && err@ == e,
            },
    {
        match self.map.get(name) {
            Some(v) => {
                let path = join_path(self.json_dir.as_str(), name);
                Ok((path, v))
            },
            None => Err(RuntimeError::runtime(String::from_str("Entry not found"))),
        }
    }

    /// Sets the record of `name`, replacing any record it had.
    pub fn set(&mut self, name: String, data: V) -> (r: Result<(), RuntimeError>)
        ensures
            r is Ok,
            final(self).dir() == old(self).dir(),
            final(self).records() == old(self).records().insert(name@, data),
    {
        self.map.insert(name, data);
        Ok(())
    }
}

/// Read after write: once `name` is set to `v`, persisting `name` writes `v`
/// to the file of that name in the store's directory.
pub proof fn law_persist_after_set<V>(records: Map<Seq<char>, V>, json_dir: Seq<char>, name: Seq<char>, v: V)
    ensures
        persist_spec(records.insert(name, v), json_dir, name) == Ok::<(Seq<char>, V), RuntimeErrorView>(
            (path_join(json_dir, name), v),
        ),
{
}

/// Setting one name leaves what persisting any other name finds unchanged.
pub proof fn law_set_keeps_others<V>(
    records: Map<Seq<char>, V>,
    json_dir: Seq<char>,
    name: Seq<char>,
    v: V,
    other: Seq<char>,
)
    requires
        other != name,
    ensures
        persist_spec(records.insert(name, v), json_dir, other) == persist_spec(records, json_dir, other),
{
}

/// A new store holds no record: persisting any name fails with "Entry not found".
pub proof fn law_new_store_is_empty<V>(json_dir: Seq<char>, name: Seq<char>)
    ensures
        persist_spec(Map::<Seq<char>, V>::empty(), json_dir, name) == Err::<(Seq<char>, V), RuntimeErrorView>(
            runtime_error_view(not_found_message()),
        ),
{
}

/// A load whose entries all parse succeeds, and afterwards each loaded id
/// holds the record of its last entry.
pub proof fn law_load_all_loaded<V>(records: Map<Seq<char>, V>, os: Seq<DirEntryOutcome<V>>, i: int)
    requires
        forall|j: int| 0 <= j < os.len() ==> (#[trigger] os[j]) is Loaded,
        0 <= i < os.len(),
        forall|j: int| i < j < os.len() ==> outcome_effect(#[trigger] os[j])->Ok_0.0 != outcome_effect(os[i])->Ok_0.0,
    ensures
        load_spec(records, os).1 is None,
        load_spec(records, os).0.contains_key(outcome_effect(os[i])->Ok_0.0),
        load_spec(records, os).0[outcome_effect(os[i])->Ok_0.0] == outcome_effect(os[i])->Ok_0.1,
    decreases os.len(),
{
    let id = outcome_effect(os[0])->Ok_0.0;
    let v = outcome_effect(os[0])->Ok_0.1;
    assert(os[0] is Loaded);
    let rest = os.drop_first();
    if i == 0 {
        law_load_all_keeps(records.insert(id, v), rest, id);
    } else {
        assert forall|j: int| 0 <= j < rest.len() implies (#[trigger] rest[j]) is Loaded by {
            assert(rest[j] == os[j + 1]);
        }
        assert forall|j: int| i - 1 < j < rest.len() implies outcome_effect(#[trigger] rest[j])->Ok_0.0
            != outcome_effect(rest[i - 1])->Ok_0.0 by {
            assert(rest[j] == os[j + 1]);
        }
        law_load_all_loaded(records.insert(id, v), rest, i - 1);
    }
}

/// Loading entries none of which is for `id` keeps the record of `id`, and
/// succeeds when every entry parses.
proof fn law_load_all_keeps<V>(records: Map<Seq<char>, V>, os: Seq<DirEntryOutcome<V>>, id: Seq<char>)
    requires
        records.contains_key(id),
        forall|j: int| 0 <= j < os.len() ==> (#[trigger] os[j]) is Loaded,
        forall|j: int| 0 <= j < os.len() ==> outcome_effect(#[trigger] os[j])->Ok_0.0 != id,
    ensures
        load_spec(records, os).1 is None,
        load_spec(records, os).0.contains_key(id),
        load_spec(records, os).0[id] == records[id],
    decreases os.len(),
{
    if os.len() > 0 {
        let rest = os.drop_first();
        assert(os[0] is Loaded);
        let k = outcome_effect(os[0])->Ok_0.0;
        let v = outcome_effect(os[0])->Ok_0.1;
        assert(outcome_effect(os[0])->Ok_0.0 != id);
        assert forall|j: int| 0 <= j < rest.len() implies (#[trigger] rest[j]) is Loaded by {
            assert(rest[j] == os[j + 1]);
        }
        assert forall|j: int| 0 <= j < rest.len() implies outcome_effect(#[trigger] rest[j])->Ok_0.0 != id by {
            assert(rest[j] == os[j + 1]);
        }
        law_load_all_keeps(records.insert(k, v), rest, id);
    }
}

/// What a load adds does not depend on the records already held: the loaded
/// records are laid over them, and the outcome is the same.
pub proof fn law_load_overlays<V>(records: Map<Seq<char>, V>, os: Seq<DirEntryOutcome<V>>)
    ensures
        load_spec(records, os).0 == records.union_prefer_right(load_spec(Map::empty(), os).0),
        load_spec(records, os).1 == load_spec(Map::<Seq<char>, V>::empty(), os).1,
    decreases os.len(),
{
    if os.len() == 0 {
        assert(records.union_prefer_right(Map::empty()) =~= records);
    } else {
        match outcome_effect(os[0]) {
            Err(e) => {
                assert(records.union_prefer_right(Map::empty()) =~= records);
            },
            Ok((id, v)) => {
                let rest = os.drop_first();
                law_load_overlays(records.insert(id, v), rest);
                law_load_overlays(Map::<Seq<char>, V>::empty().insert(id, v), rest);
                let p = load_spec(Map::<Seq<char>, V>::empty(), rest).0;
                assert(records.insert(id, v).union_prefer_right(p) =~= records.union_prefer_right(
                    Map::<Seq<char>, V>::empty().insert(id, v).union_prefer_right(p),
                ));
            },
        }
    }
}

/// Loading the same directory entries twice gives the records that loading
/// them once gives.
pub proof fn law_load_twice<V>(records: Map<Seq<char>, V>, os: Seq<DirEntryOutcome<V>>)
    ensures
        load_spec(load_spec(records, os).0, os).0 == load_spec(records, os).0,
{
    let once = load_spec(records, os).0;
    let p = load_spec(Map::<Seq<char>, V>::empty(), os).0;
    law_load_overlays(records, os);
    law_load_overlays(once, os);
    assert(records.union_prefer_right(p).union_prefer_right(p) =~= records.union_prefer_right(p));
}

/// A name that is a single file name: not empty, no `/`, and neither `.`
/// nor `..`.
pub open spec fn is_file_name(name: Seq<char>) -> bool {
    &&& name.len() > 0
    &&& !name.contains('/')
    &&& name != seq!['.']
    &&& name != seq!['.', '.']
}

/// What follows the last separator of a path that ends in a separator-free
/// `b` after a prefix that is empty or ends in `/` is `b`.
proof fn lemma_after_last_separator_suffix(a: Seq<char>, b: Seq<char>)
    requires
        a.len() == 0 || a.last() == '/',
        !b.contains('/'),
    ensures
        after_last_separator(a + b) == b,
    decreases b.len(),
{
    if b.len() == 0 {
        assert(a + b == a);
        if a.len() > 0 {
            assert(after_last_separator(a) == Seq::<char>::empty());
        }
    } else {
        let init = b.drop_last();
        assert(!init.contains('/')) by {
            if init.contains('/') {
                let i = choose|i: int| 0 <= i < init.len() && init[i] == '/';
                assert(b[i] == '/');
            }
        }
        lemma_after_last_separator_suffix(a, init);
        assert((a + b).drop_last() == a + init);
        assert((a + b).last() == b.last());
        assert(b.last() != '/') by {
            assert(b[b.len() - 1] == b.last());
        }
        assert(init.push(b.last()) == b);
    }
}

/// Round trip of a record's file: the file that persisting `name` writes
/// is named `name`, so loading the directory back finds the record under
/// that same id.
pub proof fn law_persist_then_load_finds_name<V>(
    records: Map<Seq<char>, V>,
    json_dir: Seq<char>,
    name: Seq<char>,
    v: V,
)
    requires
        is_file_name(name),
    ensures
        path_file_name(path_join(json_dir, name)) == Some(name),
        persist_spec(records.insert(name, v), json_dir, name) matches Ok((path, pv)) && path_file_name(path)
            == Some(name) && pv == v,
        forall|o: DirEntryOutcome<V>|
            #![trigger outcome_effect(o)]
            outcome_effect(o) == Ok::<(Seq<char>, V), RuntimeErrorView>((name, v)) ==> load_spec(
                records,
                seq![o],
            ).0 == records.insert(name, v),
{
    let path = path_join(json_dir, name);
    assert(name[0] != '/') by {
        assert(!name.contains('/'));
    }
    let prefix = if json_dir.len() == 0 || json_dir.last() == '/' {
        json_dir
    } else {
        json_dir + seq!['/']
    };
    assert(path == prefix + name);
    assert(prefix.len() == 0 || prefix.last() == '/');
    assert(path.last() == name.last());
    assert(name.last() != '/') by {
        assert(name[name.len() - 1] == name.last());
    }
    if name.len() >= 2 {
        assert(path[path.len() - 2] == name[name.len() - 2]);
        assert(name[name.len() - 2] != '/');
    } else {
        assert(name.last() != '.') by {
            if name.last() == '.' {
                assert(name =~= seq!['.']);
            }
        }
    }
    assert(strip_path_tail(path) == path);
    lemma_after_last_separator_suffix(prefix, name);
    assert forall|o: DirEntryOutcome<V>|
        #![trigger outcome_effect(o)]
        outcome_effect(o) == Ok::<(Seq<char>, V), RuntimeErrorView>((name, v)) implies load_spec(
            records,
            seq![o],
        ).0 == records.insert(name, v) by {
        let os = seq![o];
        assert(os[0] == o);
        assert(os.drop_first() == Seq::<DirEntryOutcome<V>>::empty());
        assert(outcome_effect(os[0]) == Ok::<(Seq<char>, V), RuntimeErrorView>((name, v)));
        reveal_with_fuel(load_spec, 2);
    }
}

/// A loaded record is kept under the whole name of its file: loading an
/// entry for `id` puts its record under exactly `id`, and loading entries
/// that all parse leaves each id with the record of its last entry.
pub proof fn law_loaded_record_under_whole_name<V>(records: Map<Seq<char>, V>, os: Seq<DirEntryOutcome<V>>, i: int)
    requires
        forall|j: int| 0 <= j < os.len() ==> (#[trigger] os[j]) is Loaded,
        0 <= i < os.len(),
        forall|j: int| i < j < os.len() ==> (#[trigger] os[j])->Loaded_0@ != os[i]->Loaded_0@,
    ensures
        load_spec(records, os).1 is None,
        load_spec(records, os).0.contains_key(os[i]->Loaded_0@),
        load_spec(records, os).0[os[i]->Loaded_0@] == os[i]->Loaded_1,
        forall|id: String, v: V| #[trigger] outcome_effect(DirEntryOutcome::Loaded(id, v)) == Ok::<(Seq<char>, V), RuntimeErrorView>((id@, v)),
{
    assert forall|j: int| 0 <= j < os.len() implies #[trigger] outcome_effect(os[j]) == Ok::<(Seq<char>, V), RuntimeErrorView>(
        (os[j]->Loaded_0@, os[j]->Loaded_1),
    ) by {
        assert(os[j] is Loaded);
    }
    assert forall|j: int| i < j < os.len() implies outcome_effect(#[trigger] os[j])->Ok_0.0 != outcome_effect(
        os[i],
    )->Ok_0.0 by {
        assert(outcome_effect(os[j]) == Ok::<(Seq<char>, V), RuntimeErrorView>((os[j]->Loaded_0@, os[j]->Loaded_1)));
        assert(outcome_effect(os[i]) == Ok::<(Seq<char>, V), RuntimeErrorView>((os[i]->Loaded_0@, os[i]->Loaded_1)));
    }
    law_load_all_loaded(records, os, i);
    assert(outcome_effect(os[i]) == Ok::<(Seq<char>, V), RuntimeErrorView>((os[i]->Loaded_0@, os[i]->Loaded_1)));
}

} // verus!
