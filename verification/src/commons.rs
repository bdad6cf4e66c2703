//! Values that are shared by the modules of the library: outputs of commands and terminal contexts.
use vstd::prelude::*;
use vstd::utf8::*;
#[allow(unused_imports)]
use vstd::string::*;
#[allow(unused_imports)]
use crate::text::{begins_with, same, starts_with};

verus! {

//---------------------------------------------------------------------------------------- BYTES
/// The text that bytes encode, by `String::from_utf8`: there is one exactly where the bytes are
/// valid UTF-8, and it has those bytes for its encoding.
#[verifier::external_body]
pub(crate) fn utf8_text(bytes: &Vec<u8>) -> (res: Option<String>)
    ensures
        res is Some <==> valid_utf8(bytes@),
        res is Some ==> res->Some_0@ == decode_utf8(bytes@),
{
    String::from_utf8(bytes.clone()).ok()
}

//---------------------------------------------------------------------------------------- FILES
/// What came of reading a value from a file.
pub enum Loaded<T> {
    /// The file could not be opened.
    Unopened,
    /// The file could not be parsed, for the given reason.
    Unparsed(String),
    /// The value of the file.
    Value(T),
}

/// What came of writing a value to a file.
#[derive(Clone, Copy, Debug, PartialEq, Eq, Structural)]
pub enum Stored {
    /// The file could not be opened.
    Unopened,
    /// The value could not be written.
    Unwritten,
    /// The value was written.
    Done,
}

//---------------------------------------------------------------------------------- EXIT STATUS
/// The status of a process that ended, as the operating system gives it: the exit code stands in
/// the second byte, and the number of the signal that ended the process in the low seven bits.
#[derive(Clone, Copy, Debug, PartialEq, Eq, Structural)]
pub struct ExitStatus {
    pub raw: i32,
}

/// The exit code of a status, if the process exited by itself.
pub open spec fn exit_code(raw: i32) -> Option<i32> {
    if raw & 0x7f == 0 {
        Some((raw >> 8) & 0xff)
    } else {
        None
    }
}

/// The signal of a status, if a signal ended the process.
pub open spec fn exit_signal(raw: i32) -> Option<i32> {
    if 0 < raw & 0x7f < 0x7f {
        Some(raw & 0x7f)
    } else {
        None
    }
}

impl ExitStatus {
    /// Makes a status out of its raw value.
    pub fn from_raw(raw: i32) -> (res: ExitStatus)
        ensures
            res == (ExitStatus { raw }),
    {
        ExitStatus { raw }
    }

    /// Whether the process exited by itself, with code zero.
    pub fn success(&self) -> (res: bool)
        ensures
            res == (self.raw == 0),
    {
        self.raw == 0
    }

    /// The exit code, if the process exited by itself.
    pub fn code(&self) -> (res: Option<i32>)
        ensures
            res == exit_code(self.raw),
    {
        if self.raw & 0x7f == 0 {
            Some((self.raw >> 8) & 0xff)
        } else {
            None
        }
    }

    /// The signal that ended the process, if there was one.
    pub fn signal(&self) -> (res: Option<i32>)
        ensures
            res == exit_signal(self.raw),
    {
        let low: i32 = self.raw & 0x7f;
        if 0 < low && low < 0x7f {
            Some(low)
        } else {
            None
        }
    }
}

/// A process that succeeded exited by itself with code zero, and no process both exited by itself
/// and was ended by a signal.
pub proof fn exit_status_is_code_or_signal(raw: i32)
    ensures
        raw == 0 ==> exit_code(raw) == Some(0i32),
        exit_code(raw) is None || exit_signal(raw) is None,
        exit_code(raw) is Some ==> 0 <= exit_code(raw)->Some_0 <= 255,
{
    assert(0i32 & 0x7f == 0) by (bit_vector);
    assert((0i32 >> 8) & 0xff == 0) by (bit_vector);
    assert(0 <= (raw >> 8) & 0xff <= 255) by (bit_vector);
}

//---------------------------------------------------------------------------------------- OUTPUT
/// What a process left: its status and the bytes that it wrote.
#[derive(Debug)]
pub struct Output {
    pub status: ExitStatus,
    pub stdout: Vec<u8>,
    pub stderr: Vec<u8>,
}

/// What an output holds.
pub ghost struct OutputView {
    pub status: i32,
    pub stdout: Seq<u8>,
    pub stderr: Seq<u8>,
}

impl View for Output {
    type V = OutputView;

    open spec fn view(&self) -> OutputView {
        OutputView { status: self.status.raw, stdout: self.stdout@, stderr: self.stderr@ }
    }
}

impl Clone for Output {
    fn clone(&self) -> (res: Output)
        ensures
            res@ == self@,
    {
        Output { status: self.status, stdout: self.stdout.clone(), stderr: self.stderr.clone() }
    }
}

impl Output {
    /// Whether both streams hold text.
    pub open spec fn is_text(&self) -> bool {
        valid_utf8(self.stdout@) && valid_utf8(self.stderr@)
    }
}

/// What a sequence of outputs holds.
pub open spec fn output_views(outputs: Seq<Output>) -> Seq<OutputView> {
    Seq::new(outputs.len(), |i: int| outputs[i]@)
}

/// The code that is reported of a status: the exit code, or 911 where there is none.
pub open spec fn reported_code(raw: i32) -> int {
    match exit_code(raw) {
        Some(code) => code as int,
        None => 911,
    }
}

/// The output of a process, as text.
#[derive(Debug)]
pub struct OutputBuf {
    pub stdout: String,
    pub stderr: String,
    pub ecode: i32,
}

impl OutputBuf {
    /// Reads the two streams of an output as text.
    pub fn from_output(output: &Output) -> (res: OutputBuf)
        requires
            output.is_text(),
        ensures
            res.stdout@ == decode_utf8(output.stdout@),
            res.stderr@ == decode_utf8(output.stderr@),
            res.ecode == reported_code(output.status.raw),
    {
        let stdout = utf8_text(&output.stdout);
        let stderr = utf8_text(&output.stderr);
        let code = output.status.code();
        let ecode: i32 = match code {
            Some(code) => code,
            None => 911,
        };
        OutputBuf { stdout: stdout.unwrap(), stderr: stderr.unwrap(), ecode }
    }
}

//----------------------------------------------------------------------------------- ENVIRONMENT
/// The variables of an environment. No two entries have the same key.
#[derive(Debug)]
pub struct EnvironmentStore {
    pub entries: Vec<(String, String)>,
}

/// The keys and values of a sequence of entries.
pub open spec fn pairs(entries: Seq<(String, String)>) -> Seq<(Seq<char>, Seq<char>)> {
    Seq::new(entries.len(), |i: int| (entries[i].0@, entries[i].1@))
}

/// Whether no two entries have the same key.
pub open spec fn distinct_keys<V>(entries: Seq<(Seq<char>, V)>) -> bool {
    forall|i: int, j: int|
        0 <= i < entries.len() && 0 <= j < entries.len() && #[trigger] entries[i].0
            == #[trigger] entries[j].0 ==> i == j
}

/// The map that a sequence of entries stands for.
pub open spec fn map_of<V>(entries: Seq<(Seq<char>, V)>) -> Map<Seq<char>, V>
    decreases entries.len(),
{
    if entries.len() == 0 {
        Map::empty()
    } else {
        map_of(entries.drop_last()).insert(entries.last().0, entries.last().1)
    }
}

/// The map has the keys of the entries, each with the value that stands beside it.
pub proof fn map_of_entries<V>(entries: Seq<(Seq<char>, V)>)
    requires
        distinct_keys(entries),
    ensures
        forall|i: int|
            0 <= i < entries.len() ==> #[trigger] map_of(entries).contains_pair(
                entries[i].0,
                entries[i].1,
            ),
        forall|k: Seq<char>| #[trigger]
            map_of(entries).contains_key(k) ==> exists|i: int|
                0 <= i < entries.len() && entries[i].0 == k,
    decreases entries.len(),
{
    if entries.len() > 0 {
        let init = entries.drop_last();
        assert(distinct_keys(init)) by {
            assert forall|i: int, j: int|
                0 <= i < init.len() && 0 <= j < init.len() && #[trigger] init[i].0
                    == #[trigger] init[j].0 implies i == j by {
                assert(entries[i].0 == entries[j].0);
            }
        }
        map_of_entries(init);
        assert forall|i: int| 0 <= i < entries.len() implies #[trigger] map_of(
            entries,
        ).contains_pair(entries[i].0, entries[i].1) by {
            if i < init.len() {
                assert(init[i] == entries[i]);
                assert(map_of(init).contains_pair(init[i].0, init[i].1));
                assert(entries[i].0 != entries[entries.len() - 1].0);
            }
        }
        assert forall|k: Seq<char>| #[trigger] map_of(entries).contains_key(k) implies exists|i: int|
            0 <= i < entries.len() && entries[i].0 == k by {
            if k == entries.last().0 {
                assert(entries[entries.len() - 1].0 == k);
            } else {
                assert(map_of(init).contains_key(k));
                let i = choose|i: int| 0 <= i < init.len() && init[i].0 == k;
                assert(entries[i].0 == k);
            }
        }
    }
}

/// A sequence of entries with distinct keys stands for the map in which the same pairs occur.
proof fn map_of_same_pairs<V>(a: Seq<(Seq<char>, V)>, m: Map<Seq<char>, V>)
    requires
        distinct_keys(a),
        forall|k: Seq<char>| #[trigger]
            m.contains_key(k) <==> exists|i: int| 0 <= i < a.len() && a[i].0 == k,
        forall|i: int| 0 <= i < a.len() ==> m[(#[trigger] a[i]).0] == a[i].1,
    ensures
        map_of(a) == m,
{
    map_of_entries(a);
    assert forall|k: Seq<char>| map_of(a).contains_key(k) <==> m.contains_key(k) by {
        if m.contains_key(k) {
            let i = choose|i: int| 0 <= i < a.len() && a[i].0 == k;
            assert(map_of(a).contains_pair(a[i].0, a[i].1));
        }
    }
    assert forall|k: Seq<char>| map_of(a).contains_key(k) implies map_of(a)[k] == m[k] by {
        let i = choose|i: int| 0 <= i < a.len() && a[i].0 == k;
        assert(map_of(a).contains_pair(a[i].0, a[i].1));
    }
    assert(map_of(a) =~= m);
}

impl View for EnvironmentStore {
    type V = Map<Seq<char>, Seq<char>>;

    open spec fn view(&self) -> Map<Seq<char>, Seq<char>> {
        map_of(pairs(self.entries@))
    }
}

impl EnvironmentStore {
    /// No key occurs twice.
    pub open spec fn wf(&self) -> bool {
        distinct_keys(pairs(self.entries@))
    }

    /// An environment without variables.
    pub fn new() -> (res: EnvironmentStore)
        ensures
            res.wf(),
            res@ == Map::<Seq<char>, Seq<char>>::empty(),
            res.entries.len() == 0,
    {
        EnvironmentStore { entries: Vec::new() }
    }

    /// The place of a key among the entries.
    fn position(&self, key: &str) -> (res: Option<usize>)
        ensures
            match res {
                Some(i) => i < self.entries.len() && self.entries@[i as int].0@ == key@,
                None => forall|i: int|
                    0 <= i < self.entries.len() ==> (#[trigger] self.entries@[i]).0@ != key@,
            },
    {
        let mut i: usize = 0;
        while i < self.entries.len()
            invariant
                i <= self.entries.len(),
                forall|j: int| 0 <= j < i ==> (#[trigger] self.entries@[j]).0@ != key@,
            decreases self.entries.len() - i,
        {
            if same(self.entries[i].0.as_str(), key) {
                return Some(i);
            }
            i = i + 1;
        }
        None
    }

    /// The value of a variable, if it is set.
    pub fn get(&self, key: &str) -> (res: Option<&String>)
        requires
            self.wf(),
        ensures
            match res {
                Some(value) => self@.contains_pair(key@, value@),
                None => !self@.contains_key(key@),
            },
    {
        proof {
            map_of_entries(pairs(self.entries@));
        }
        match self.position(key) {
            Some(i) => {
                assert(self@.contains_pair(
                    pairs(self.entries@)[i as int].0,
                    pairs(self.entries@)[i as int].1,
                ));
                Some(&self.entries[i].1)
            },
            None => {
                assert(!self@.contains_key(key@)) by {
                    if self@.contains_key(key@) {
                        let i = choose|i: int|
                            0 <= i < pairs(self.entries@).len() && pairs(self.entries@)[i].0 == key@;
                        assert(self.entries@[i].0@ == key@);
                    }
                }
                None
            },
        }
    }

    /// Sets a variable. One that is set already takes the new value; its place among the entries
    /// does not change.
    pub fn insert(&mut self, key: String, value: String)
        requires
            old(self).wf(),
        ensures
            final(self).wf(),
            final(self)@ == old(self)@.insert(key@, value@),
    {
        let ghost before = pairs(self.entries@);
        let ghost k = key@;
        let ghost v = value@;
        proof {
            map_of_entries(before);
        }
        match self.position(key.as_str()) {
            Some(i) => {
                self.entries.set(i, (key, value));
                let ghost after = pairs(self.entries@);
                proof {
                    assert(after =~= before.update(i as int, (k, v)));
                    assert(distinct_keys(after)) by {
                        assert forall|a: int, b: int|
                            0 <= a < after.len() && 0 <= b < after.len() && #[trigger] after[a].0
                                == #[trigger] after[b].0 implies a == b by {
                            assert(before[a].0 == before[b].0);
                        }
                    }
                    assert forall|key2: Seq<char>| #[trigger] map_of(before).insert(k, v).contains_key(
                        key2,
                    ) <==> exists|j: int| 0 <= j < after.len() && after[j].0 == key2 by {
                        if map_of(before).insert(k, v).contains_key(key2) {
                            if key2 == k {
                                assert(after[i as int].0 == key2);
                            } else {
                                let j = choose|j: int| 0 <= j < before.len() && before[j].0 == key2;
                                assert(after[j].0 == key2);
                            }
                        }
                        if exists|j: int| 0 <= j < after.len() && after[j].0 == key2 {
                            let j = choose|j: int| 0 <= j < after.len() && after[j].0 == key2;
                            assert(map_of(before).contains_pair(before[j].0, before[j].1));
                        }
                    }
                    assert forall|j: int| 0 <= j < after.len() implies map_of(before).insert(k, v)[(
                    #[trigger] after[j]).0] == after[j].1 by {
                        if j != i {
                            assert(before[j].0 != before[i as int].0);
                            assert(map_of(before).contains_pair(before[j].0, before[j].1));
                        }
                    }
                    map_of_same_pairs(after, map_of(before).insert(k, v));
                }
            },
            None => {
                self.entries.push((key, value));
                let ghost after = pairs(self.entries@);
                proof {
                    assert(after =~= before.push((k, v)));
                    assert(after.drop_last() =~= before);
                    assert(distinct_keys(after)) by {
                        assert forall|a: int, b: int|
                            0 <= a < after.len() && 0 <= b < after.len() && #[trigger] after[a].0
                                == #[trigger] after[b].0 implies a == b by {
                            if a < before.len() && b < before.len() {
                                assert(before[a].0 == before[b].0);
                            } else if a < before.len() {
                                assert(old(self).entries@[a].0@ == k);
                            } else if b < before.len() {
                                assert(old(self).entries@[b].0@ == k);
                            }
                        }
                    }
                }
            },
        }
    }
}

/// Whether a variable is kept when an environment is cleared: it belongs to runaway, or it is one
/// of those that were given.
pub open spec fn is_kept(key: Seq<char>, given: Map<Seq<char>, Seq<char>>) -> bool {
    begins_with(key, "RUNAWAY"@) || given.contains_key(key)
}

impl EnvironmentStore {
    /// Clears the environment of the variables that neither begin with `RUNAWAY` nor are among
    /// the given ones.
    pub fn retain_runaway(&self, given: &EnvironmentStore) -> (res: EnvironmentStore)
        requires
            self.wf(),
            given.wf(),
        ensures
            res.wf(),
            res@ == self@.restrict(Set::new(|key: Seq<char>| is_kept(key, given@))),
    {
        let ghost kept = Set::new(|key: Seq<char>| is_kept(key, given@));
        let ghost all = pairs(self.entries@);
        let mut res = EnvironmentStore::new();
        let mut i: usize = 0;
        assert(res@ =~= map_of(all.take(0)).restrict(kept));
        while i < self.entries.len()
            invariant
                i <= self.entries.len(),
                given.wf(),
                res.wf(),
                all == pairs(self.entries@),
                kept == Set::new(|key: Seq<char>| is_kept(key, given@)),
                res@ == map_of(all.take(i as int)).restrict(kept),
            decreases self.entries.len() - i,
        {
            let key = &self.entries[i].0;
            let value = &self.entries[i].1;
            let ghost before = map_of(all.take(i as int));
            assert(all.take(i + 1).drop_last() =~= all.take(i as int));
            assert(map_of(all.take(i + 1)) == before.insert(key@, value@));
            if starts_with(key.as_str(), "RUNAWAY") || given.get(key.as_str()).is_some() {
                res.insert(key.clone(), value.clone());
                assert(res@ =~= before.insert(key@, value@).restrict(kept));
            } else {
                assert(res@ =~= before.insert(key@, value@).restrict(kept));
            }
            i = i + 1;
        }
        assert(all.take(i as int) =~= all);
        res
    }
}

impl Clone for EnvironmentStore {
    fn clone(&self) -> (res: EnvironmentStore)
        ensures
            pairs(res.entries@) == pairs(self.entries@),
    {
        let mut entries: Vec<(String, String)> = Vec::new();
        let mut i: usize = 0;
        while i < self.entries.len()
            invariant
                i <= self.entries.len(),
                entries.len() == i,
                forall|j: int|
                    0 <= j < i ==> (#[trigger] entries@[j]).0@ == self.entries@[j].0@ && entries@[j].1@
                        == self.entries@[j].1@,
            decreases self.entries.len() - i,
        {
            entries.push((self.entries[i].0.clone(), self.entries[i].1.clone()));
            i = i + 1;
        }
        assert(pairs(entries@) =~= pairs(self.entries@));
        EnvironmentStore { entries }
    }
}

//----------------------------------------------------------------------------------------- TABLE
/// Values by name. No two entries have the same name.
#[derive(Debug)]
pub struct Table<V> {
    pub entries: Vec<(String, V)>,
}

/// The names and values of a sequence of entries.
pub open spec fn named<V>(entries: Seq<(String, V)>) -> Seq<(Seq<char>, V)> {
    Seq::new(entries.len(), |i: int| (entries[i].0@, entries[i].1))
}

impl<V> View for Table<V> {
    type V = Map<Seq<char>, V>;

    open spec fn view(&self) -> Map<Seq<char>, V> {
        map_of(named(self.entries@))
    }
}

impl<V> Table<V> {
    /// No name occurs twice.
    pub open spec fn wf(&self) -> bool {
        distinct_keys(named(self.entries@))
    }

    /// A table without values.
    pub fn new() -> (res: Table<V>)
        ensures
            res.wf(),
            res@ == Map::<Seq<char>, V>::empty(),
    {
        Table { entries: Vec::new() }
    }

    /// The place of a name among the entries.
    fn position(&self, name: &str) -> (res: Option<usize>)
        ensures
            match res {
                Some(i) => i < self.entries.len() && self.entries@[i as int].0@ == name@,
                None => forall|i: int|
                    0 <= i < self.entries.len() ==> (#[trigger] self.entries@[i]).0@ != name@,
            },
    {
        let mut i: usize = 0;
        while i < self.entries.len()
            invariant
                i <= self.entries.len(),
                forall|j: int| 0 <= j < i ==> (#[trigger] self.entries@[j]).0@ != name@,
            decreases self.entries.len() - i,
        {
            if same(self.entries[i].0.as_str(), name) {
                return Some(i);
            }
            i = i + 1;
        }
        None
    }

    /// The value under a name, if there is one.
    pub fn get(&self, name: &str) -> (res: Option<&V>)
        requires
            self.wf(),
        ensures
            match res {
                Some(value) => self@.contains_pair(name@, *value),
                None => !self@.contains_key(name@),
            },
    {
        let ghost all = named(self.entries@);
        proof {
            map_of_entries(all);
        }
        match self.position(name) {
            Some(i) => {
                assert(self@.contains_pair(all[i as int].0, all[i as int].1));
                Some(&self.entries[i].1)
            },
            None => {
                assert(!self@.contains_key(name@)) by {
                    if self@.contains_key(name@) {
                        let i = choose|i: int| 0 <= i < all.len() && all[i].0 == name@;
                        assert(self.entries@[i].0@ == name@);
                    }
                }
                None
            },
        }
    }

    /// Removes the value under a name, if there is one.
    pub fn remove(&mut self, name: &str)
        requires
            old(self).wf(),
        ensures
            final(self).wf(),
            final(self)@ == old(self)@.remove(name@),
    {
        let ghost before = named(self.entries@);
        proof {
            map_of_entries(before);
        }
        match self.position(name) {
            Some(i) => {
                self.entries.remove(i);
                let ghost after = named(self.entries@);
                proof {
                    let n = i as int;
                    let wanted = map_of(before).remove(name@);
                    assert(after =~= before.remove(n));
                    assert(distinct_keys(after)) by {
                        assert forall|a: int, b: int|
                            0 <= a < after.len() && 0 <= b < after.len() && #[trigger] after[a].0
                                == #[trigger] after[b].0 implies a == b by {
                            let x = if a < n {
                                a
                            } else {
                                a + 1
                            };
                            let y = if b < n {
                                b
                            } else {
                                b + 1
                            };
                            assert(before[x].0 == before[y].0);
                        }
                    }
                    assert forall|k: Seq<char>| #[trigger] wanted.contains_key(k) <==> exists|j: int|
                        0 <= j < after.len() && after[j].0 == k by {
                        if wanted.contains_key(k) {
                            let x = choose|x: int| 0 <= x < before.len() && before[x].0 == k;
                            let j = if x < n {
                                x
                            } else {
                                x - 1
                            };
                            assert(after[j].0 == k);
                        }
                        if exists|j: int| 0 <= j < after.len() && after[j].0 == k {
                            let j = choose|j: int| 0 <= j < after.len() && after[j].0 == k;
                            let x = if j < n {
                                j
                            } else {
                                j + 1
                            };
                            assert(map_of(before).contains_pair(before[x].0, before[x].1));
                            assert(before[x].0 != before[n].0);
                        }
                    }
                    assert forall|j: int| 0 <= j < after.len() implies wanted[(
                    #[trigger] after[j]).0] == after[j].1 by {
                        let x = if j < n {
                            j
                        } else {
                            j + 1
                        };
                        assert(map_of(before).contains_pair(before[x].0, before[x].1));
                        assert(before[x].0 != before[n].0);
                    }
                    map_of_same_pairs(after, wanted);
                }
            },
            None => {
                assert(!map_of(before).contains_key(name@)) by {
                    if map_of(before).contains_key(name@) {
                        let i = choose|i: int| 0 <= i < before.len() && before[i].0 == name@;
                        assert(self.entries@[i].0@ == name@);
                    }
                }
                assert(map_of(before).remove(name@) =~= map_of(before));
            },
        }
    }

    /// Puts a value under a name, in the place of the one that is there.
    pub fn insert(&mut self, name: String, value: V)
        requires
            old(self).wf(),
        ensures
            final(self).wf(),
            final(self)@ == old(self)@.insert(name@, value),
    {
        let ghost all = old(self)@;
        let ghost n = name@;
        self.remove(name.as_str());
        let ghost before = named(self.entries@);
        proof {
            map_of_entries(before);
        }
        self.entries.push((name, value));
        let ghost after = named(self.entries@);
        proof {
            assert(after =~= before.push((n, value)));
            assert(after.drop_last() =~= before);
            assert(distinct_keys(after)) by {
                assert forall|a: int, b: int|
                    0 <= a < after.len() && 0 <= b < after.len() && #[trigger] after[a].0
                        == #[trigger] after[b].0 implies a == b by {
                    if a < before.len() && b < before.len() {
                        assert(before[a].0 == before[b].0);
                    } else if a < before.len() {
                        assert(map_of(before).contains_pair(before[a].0, before[a].1));
                    } else if b < before.len() {
                        assert(map_of(before).contains_pair(before[b].0, before[b].1));
                    }
                }
            }
            assert(map_of(after) =~= all.insert(n, value));
        }
    }
}

//-------------------------------------------------------------------------------------- TERMINAL
/// The context that commands run in: a working directory and an environment.
#[derive(Debug)]
pub struct TerminalContext {
    pub cwd: String,
    pub envs: EnvironmentStore,
}

impl TerminalContext {
    /// No variable is set twice.
    pub open spec fn wf(&self) -> bool {
        self.envs.wf()
    }

    /// Whether two contexts hold the same directory and the same variables, in the same order.
    pub open spec fn same_as(&self, other: &TerminalContext) -> bool {
        &&& self.cwd@ == other.cwd@
        &&& pairs(self.envs.entries@) == pairs(other.envs.entries@)
    }
}

impl Clone for TerminalContext {
    fn clone(&self) -> (res: TerminalContext)
        ensures
            res.same_as(self),
    {
        TerminalContext { cwd: self.cwd.clone(), envs: self.envs.clone() }
    }
}

//------------------------------------------------------------------------------------------ LAWS
/// A process that exits with a code leaves the code in the second byte of its status: it is what is
/// read of the status, for every code. Only the status zero is a success.
pub proof fn exit_code_is_second_byte(code: i32, read: Option<i32>, signal: Option<i32>, good: bool)
    requires
        0 <= code <= 255,
        call_ensures(ExitStatus::code, (&ExitStatus { raw: (code * 256) as i32 },), read),
        call_ensures(ExitStatus::signal, (&ExitStatus { raw: (code * 256) as i32 },), signal),
        call_ensures(ExitStatus::success, (&ExitStatus { raw: (code * 256) as i32 },), good),
    ensures
        read == Some(code),
        signal is None,
        good <==> code == 0,
        exit_code((code * 256) as i32) == Some(code),
        reported_code((code * 256) as i32) == code,
{
    let raw = (code * 256) as i32;
    assert(raw & 0x7f == 0 && (raw >> 8) & 0xff == code) by (bit_vector)
        requires
            0 <= code <= 255,
            raw == code * 256,
    ;
}

/// A process that a signal ended leaves the number of the signal in the low bits of its status: it
/// has no exit code, and is no success.
pub proof fn signal_is_low_bits(number: i32, read: Option<i32>, signal: Option<i32>, good: bool)
    requires
        0 < number < 127,
        call_ensures(ExitStatus::code, (&ExitStatus { raw: number },), read),
        call_ensures(ExitStatus::signal, (&ExitStatus { raw: number },), signal),
        call_ensures(ExitStatus::success, (&ExitStatus { raw: number },), good),
    ensures
        read is None,
        signal == Some(number),
        !good,
        reported_code(number) == 911,
{
    assert(number & 0x7f == number) by (bit_vector)
        requires
            0 < number < 127,
    ;
}

/// What is seen of an output is its status and its streams.
pub proof fn output_is_what_it_holds(output: Output, outputs: Seq<Output>)
    ensures
        output@.status == output.status.raw,
        output@.stdout == output.stdout@,
        output@.stderr == output.stderr@,
        output_views(outputs).len() == outputs.len(),
        forall|i: int| 0 <= i < outputs.len() ==> #[trigger] output_views(outputs)[i] == outputs[i]@,
{
}

/// An output is read as the text of its streams and its exit code.
pub proof fn output_is_read_whole(output: Output, code: i32, buf: OutputBuf)
    requires
        call_ensures(OutputBuf::from_output, (&output,), buf),
        0 <= code <= 255,
        output.status.raw == code * 256,
    ensures
        buf.stdout@ == decode_utf8(output.stdout@),
        buf.stderr@ == decode_utf8(output.stderr@),
        buf.ecode == code,
{
    let raw = output.status.raw;
    assert(raw & 0x7f == 0 && (raw >> 8) & 0xff == code) by (bit_vector)
        requires
            0 <= code <= 255,
            raw == code * 256,
    ;
}

/// An environment has the variables of its entries, each with its value, and no other.
pub proof fn environment_has_its_entries(store: EnvironmentStore, key: Seq<char>)
    requires
        store.wf(),
    ensures
        forall|i: int|
            0 <= i < store.entries.len() ==> #[trigger] store@.contains_pair(
                store.entries@[i].0@,
                store.entries@[i].1@,
            ),
        store@.contains_key(key) ==> exists|i: int|
            0 <= i < store.entries.len() && (#[trigger] store.entries@[i]).0@ == key,
{
    let all = pairs(store.entries@);
    map_of_entries(all);
    assert forall|i: int| 0 <= i < store.entries.len() implies #[trigger] store@.contains_pair(
        store.entries@[i].0@,
        store.entries@[i].1@,
    ) by {
        assert(map_of(all).contains_pair(all[i].0, all[i].1));
    }
    if store@.contains_key(key) {
        let i = choose|i: int| 0 <= i < all.len() && all[i].0 == key;
        assert(store.entries@[i].0@ == key);
    }
}

/// A table has the values of its entries, each under its name, and no other.
pub proof fn table_has_its_entries<V>(table: Table<V>, name: Seq<char>)
    requires
        table.wf(),
    ensures
        forall|i: int|
            0 <= i < table.entries.len() ==> #[trigger] table@.contains_pair(
                table.entries@[i].0@,
                table.entries@[i].1,
            ),
        table@.contains_key(name) ==> exists|i: int|
            0 <= i < table.entries.len() && (#[trigger] table.entries@[i]).0@ == name,
{
    let all = named(table.entries@);
    map_of_entries(all);
    assert forall|i: int| 0 <= i < table.entries.len() implies #[trigger] table@.contains_pair(
        table.entries@[i].0@,
        table.entries@[i].1,
    ) by {
        assert(map_of(all).contains_pair(all[i].0, all[i].1));
    }
    if table@.contains_key(name) {
        let i = choose|i: int| 0 <= i < all.len() && all[i].0 == name;
        assert(table.entries@[i].0@ == name);
    }
}

/// Of an environment that is cleared, a variable is left if and only if its name begins with
/// `RUNAWAY` or it was given, with the value that it had.
pub proof fn cleared_environment_keeps_runaway_and_given(
    store: EnvironmentStore,
    given: EnvironmentStore,
    res: EnvironmentStore,
    key: Seq<char>,
)
    requires
        call_ensures(EnvironmentStore::retain_runaway, (&store, &given), res),
    ensures
        res@.contains_key(key) <==> store@.contains_key(key) && ((key.len() >= 7 && key.take(7)
            == "RUNAWAY"@) || given@.contains_key(key)),
        res@.contains_key(key) ==> res@[key] == store@[key],
{
    reveal_strlit("RUNAWAY");
    if key.len() >= 7 {
        assert(key.take(7) =~= key.subrange(0, 7));
    }
}

/// A copy of a context has the same directory and the same variables.
pub proof fn copied_context_is_the_same(context: TerminalContext, res: TerminalContext)
    requires
        call_ensures(TerminalContext::clone, (&context,), res),
    ensures
        res.cwd@ == context.cwd@,
        res.envs@ == context.envs@,
{
}

/// A variable has the value that it was set to last, and is not set where it never was.
pub proof fn variables_have_their_values(
    store: &mut EnvironmentStore,
    key: String,
    value: String,
    name: &str,
    fresh: EnvironmentStore,
    got: Option<&String>,
)
    requires
        call_ensures(EnvironmentStore::insert, (store, key, value), ()),
        call_ensures(EnvironmentStore::new, (), fresh),
        call_ensures(EnvironmentStore::get, (final(store), name), got),
    ensures
        name@ == key@ ==> got is Some && got->Some_0@ == value@,
        name@ != key@ ==> (got is Some <==> old(store)@.contains_key(name@)) && (got is Some
            ==> got->Some_0@ == old(store)@[name@]),
        !fresh@.contains_key(name@),
        fresh.entries.len() == 0,
{
}

/// A table has the value that was put last under a name, until it is removed.
pub proof fn names_have_their_values<V>(
    put: &mut Table<V>,
    removed: &mut Table<V>,
    name: String,
    value: V,
    asked: &str,
    fresh: Table<V>,
    got: Option<&V>,
    gone: Option<&V>,
)
    requires
        call_ensures(Table::<V>::insert, (put, name, value), ()),
        call_ensures(Table::<V>::remove, (removed, asked), ()),
        call_ensures(Table::<V>::new, (), fresh),
        call_ensures(Table::<V>::get, (final(put), asked), got),
        call_ensures(Table::<V>::get, (final(removed), asked), gone),
    ensures
        asked@ == name@ ==> got is Some && *got->Some_0 == value,
        asked@ != name@ ==> (got is Some <==> old(put)@.contains_key(asked@)) && (got is Some
            ==> *got->Some_0 == old(put)@[asked@]),
        gone is None,
        !fresh@.contains_key(asked@),
{
}

/// Whatever the raw status is, the process exited by itself where the seven low bits are zero, with the
/// code of the second byte; a signal ended it where they are neither zero nor all set, and they are its
/// number.
pub proof fn status_is_read_bit_by_bit(
    raw: i32,
    code: Option<i32>,
    signal: Option<i32>,
    good: bool,
    made: ExitStatus,
)
    requires
        call_ensures(ExitStatus::from_raw, (raw,), made),
        call_ensures(ExitStatus::code, (&made,), code),
        call_ensures(ExitStatus::signal, (&made,), signal),
        call_ensures(ExitStatus::success, (&made,), good),
    ensures
        raw & 0x7f == 0 ==> code == Some((raw >> 8) & 0xff) && signal is None,
        raw & 0x7f != 0 ==> code is None,
        raw & 0x7f != 0 && raw & 0x7f != 0x7f ==> signal == Some(raw & 0x7f),
        raw & 0x7f == 0x7f ==> signal is None,
        good <==> raw == 0,
{
    assert(0 <= raw & 0x7f <= 0x7f) by (bit_vector);
}

} // verus!
