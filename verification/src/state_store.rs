use std::collections::BTreeMap;
use std::io;
use std::path::PathBuf;
use vstd::prelude::*;

use crate::error::CliError;

verus! {

/// Whether no device identifier occurs twice among `e`.
pub open spec fn keys_distinct(e: Seq<(String, u32)>) -> bool {
    forall|i: int, j: int|
        0 <= i < e.len() && 0 <= j < e.len() && i != j ==> #[trigger] e[i].0@ != #[trigger] e[j].0@
}

/// Entry `i` of `e` is the one for device `k`.
pub open spec fn has_key_at(e: Seq<(String, u32)>, k: Seq<char>, i: int) -> bool {
    0 <= i < e.len() && e[i].0@ == k
}

/// The table that the entries `e` describe: device identifier to saved brightness.
pub open spec fn entries_view(e: Seq<(String, u32)>) -> Map<Seq<char>, u32> {
    Map::new(
        |k: Seq<char>| exists|i: int| has_key_at(e, k, i),
        |k: Seq<char>| e[choose|i: int| has_key_at(e, k, i)].1,
    )
}

proof fn lemma_entries_view_at(e: Seq<(String, u32)>, k: Seq<char>, i: int)
    requires
        keys_distinct(e),
        has_key_at(e, k, i),
    ensures
        entries_view(e).contains_key(k),
        entries_view(e)[k] == e[i].1,
{
    let j = choose|j: int| has_key_at(e, k, j);
    assert(has_key_at(e, k, j));
    assert(i == j);
}

proof fn lemma_entries_view_absent(e: Seq<(String, u32)>, k: Seq<char>)
    requires
        forall|i: int| 0 <= i < e.len() ==> (#[trigger] e[i]).0@ != k,
    ensures
        !entries_view(e).contains_key(k),
{
}

/// The saved brightness of each device, one entry per device.
#[derive(Debug)]
pub struct DeviceStates {
    entries: Vec<(String, u32)>,
}

impl View for DeviceStates {
    type V = Map<Seq<char>, u32>;

    closed spec fn view(&self) -> Map<Seq<char>, u32> {
        entries_view(self.entries@)
    }
}

impl DeviceStates {
    #[verifier::type_invariant]
    closed spec fn inv(&self) -> bool {
        keys_distinct(self.entries@)
    }

    /// A table that holds no device.
    pub fn new() -> (r: Self)
        ensures
            r@ == Map::<Seq<char>, u32>::empty(),
    {
        let r = DeviceStates { entries: Vec::new() };
        assert(r@ =~= Map::<Seq<char>, u32>::empty());
        r
    }

    fn from_entries(entries: Vec<(String, u32)>) -> (r: Self)
        requires
            keys_distinct(entries@),
        ensures
            r@ == entries_view(entries@),
    {
        DeviceStates { entries }
    }

    /// Position of the entry for `device_id`, if any.
    fn find(&self, device_id: &String) -> (r: Option<usize>)
        ensures
            match r {
                Some(i) => has_key_at(self.entries@, device_id@, i as int),
                None => forall|i: int|
                    0 <= i < self.entries@.len() ==> (#[trigger] self.entries@[i]).0@ != device_id@,
            },
    {
        let n = self.entries.len();
        let mut i: usize = 0;
        while i < n
            invariant
                i <= n,
                n == self.entries@.len(),
                forall|j: int| 0 <= j < i ==> (#[trigger] self.entries@[j]).0@ != device_id@,
            decreases n - i,
        {
            if self.entries[i].0 == *device_id {
                return Some(i);
            }
            i = i + 1;
        }
        None
    }

    /// The saved brightness of `device_id`, if any.
    pub fn get(&self, device_id: &str) -> (r: Option<u32>)
        ensures
            r == (if self@.contains_key(device_id@) {
                Some(self@[device_id@])
            } else {
                None::<u32>
            }),
    {
        proof {
            use_type_invariant(self);
        }
        let key = device_id.to_string();
        match self.find(&key) {
            Some(i) => {
                proof {
                    lemma_entries_view_at(self.entries@, device_id@, i as int);
                }
                Some(self.entries[i].1)
            },
            None => {
                proof {
                    lemma_entries_view_absent(self.entries@, device_id@);
                }
                None
            },
        }
    }

    /// Saves `value` for `device_id`, replacing what was saved for it before.
    pub fn insert(&mut self, device_id: &str, value: u32)
        ensures
            final(self)@ == old(self)@.insert(device_id@, value),
    {
        proof {
            use_type_invariant(&*self);
        }
        let key = device_id.to_string();
        let pos = self.find(&key);
        let mut e: Vec<(String, u32)> = Vec::new();
        std::mem::swap(&mut e, &mut self.entries);
        let ghost old_e = e@;
        match pos {
            Some(i) => {
                e.set(i, (key, value));
            },
            None => {
                e.push((key, value));
            },
        }
        proof {
            let k = device_id@;
            assert(keys_distinct(e@));
            assert forall|k2: Seq<char>|
                #![trigger entries_view(e@).contains_key(k2)]
                entries_view(e@).contains_key(k2) == entries_view(old_e).insert(k, value).contains_key(k2)
                    && (entries_view(e@).contains_key(k2) ==> entries_view(e@)[k2] == entries_view(
                    old_e,
                ).insert(k, value)[k2]) by {
                if k2 == k {
                    let j = if pos is Some { pos->0 as int } else { old_e.len() as int };
                    assert(has_key_at(e@, k, j));
                    lemma_entries_view_at(e@, k, j);
                } else if entries_view(old_e).contains_key(k2) {
                    let j = choose|j: int| has_key_at(old_e, k2, j);
                    assert(has_key_at(e@, k2, j));
                    lemma_entries_view_at(old_e, k2, j);
                    lemma_entries_view_at(e@, k2, j);
                } else {
                    if entries_view(e@).contains_key(k2) {
                        let j = choose|j: int| has_key_at(e@, k2, j);
                        assert(has_key_at(old_e, k2, j));
                    }
                }
            }
            assert(entries_view(e@) =~= entries_view(old_e).insert(k, value));
        }
        self.entries = e;
    }

    /// Removes the entry for `device_id`; tells whether there was one.
    pub fn remove(&mut self, device_id: &str) -> (r: bool)
        ensures
            r == old(self)@.contains_key(device_id@),
            final(self)@ == old(self)@.remove(device_id@),
    {
        proof {
            use_type_invariant(&*self);
        }
        let key = device_id.to_string();
        let pos = self.find(&key);
        match pos {
            None => {
                proof {
                    lemma_entries_view_absent(self.entries@, device_id@);
                    assert(self@ =~= self@.remove(device_id@));
                }
                false
            },
            Some(i) => {
                proof {
                    lemma_entries_view_at(self.entries@, device_id@, i as int);
                }
                let mut e: Vec<(String, u32)> = Vec::new();
                std::mem::swap(&mut e, &mut self.entries);
                let ghost old_e = e@;
                let _ = e.remove(i);
                proof {
                    let k = device_id@;
                    assert forall|a: int, b: int|
                        0 <= a < e@.len() && 0 <= b < e@.len() && a != b implies #[trigger] e@[a].0@
                        != #[trigger] e@[b].0@ by {
                        let a2 = if a < i { a } else { a + 1 };
                        let b2 = if b < i { b } else { b + 1 };
                        assert(e@[a] == old_e[a2]);
                        assert(e@[b] == old_e[b2]);
                    }
                    assert forall|k2: Seq<char>|
                        #![trigger entries_view(e@).contains_key(k2)]
                        entries_view(e@).contains_key(k2) == entries_view(old_e).remove(k).contains_key(
                            k2,
                        ) && (entries_view(e@).contains_key(k2) ==> entries_view(e@)[k2]
                            == entries_view(old_e).remove(k)[k2]) by {
                        if entries_view(e@).contains_key(k2) {
                            let j = choose|j: int| has_key_at(e@, k2, j);
                            let j2 = if j < i { j } else { j + 1 };
                            assert(e@[j] == old_e[j2]);
                            assert(has_key_at(old_e, k2, j2));
                            lemma_entries_view_at(old_e, k2, j2);
                            lemma_entries_view_at(e@, k2, j);
                        } else if entries_view(old_e).contains_key(k2) && k2 != k {
                            let j = choose|j: int| has_key_at(old_e, k2, j);
                            let j1 = if j < i { j } else { j - 1 };
                            assert(j != i);
                            assert(e@[j1] == old_e[j]);
                            assert(has_key_at(e@, k2, j1));
                        }
                    }
                    assert(entries_view(e@) =~= entries_view(old_e).remove(k));
                }
                self.entries = e;
                true
            },
        }
    }
}


/// What `toml::from_str` gives for `text` read as a map from strings to
/// `u32` values: the table, or the error it reports.
pub uninterp spec fn toml_u32_table(text: Seq<char>) -> Result<Map<Seq<char>, u32>, toml::de::Error>;

/// What `toml::to_string_pretty` gives for `table` (its keys in ascending
/// order): the text, or the error it reports.
pub uninterp spec fn toml_pretty_text(table: Map<Seq<char>, u32>) -> Result<Seq<char>, toml::ser::Error>;

/// The path that `PathBuf::from` makes of `text`.
pub uninterp spec fn path_of(text: Seq<char>) -> PathBuf;

/// Calls `toml::from_str` to read `text` as a map from strings to `u32`.
/// Claimed: the call gives the named result, the table as entries (one per
/// key) or the error.
#[verifier::external_body]
fn toml_read_table(text: &str) -> (r: Result<Vec<(String, u32)>, toml::de::Error>)
    ensures
        match r {
            Ok(v) => keys_distinct(v@) && toml_u32_table(text@) == Ok::<Map<Seq<char>, u32>, toml::de::Error>(
                entries_view(v@),
            ),
            Err(e) => toml_u32_table(text@) == Err::<Map<Seq<char>, u32>, toml::de::Error>(e),
        },
{
    match toml::from_str::<BTreeMap<String, u32>>(text) {
        Ok(m) => Ok(m.into_iter().collect()),
        Err(e) => Err(e),
    }
}

/// Calls `toml::to_string_pretty` on the table that `entries` describe,
/// keyed in ascending order. Claimed: the call gives the named result, the
/// text or the error; and `toml::from_str` reads that
/// text back as the same table (the writer quotes and escapes each key as
/// needed and writes each value as a decimal integer).
#[verifier::external_body]
fn toml_write_table(entries: &Vec<(String, u32)>) -> (r: Result<String, toml::ser::Error>)
    requires
        keys_distinct(entries@),
    ensures
        match r {
            Ok(t) => toml_pretty_text(entries_view(entries@)) == Ok::<Seq<char>, toml::ser::Error>(t@)
                && toml_u32_table(t@) == Ok::<Map<Seq<char>, u32>, toml::de::Error>(entries_view(entries@)),
            Err(e) => toml_pretty_text(entries_view(entries@)) == Err::<Seq<char>, toml::ser::Error>(e),
        },
{
    let table: BTreeMap<&str, u32> = entries.iter().map(|e| (e.0.as_str(), e.1)).collect();
    toml::to_string_pretty(&table)
}

/// Calls `PathBuf::from` on `text`. Claimed: the result is the named path.
#[verifier::external_body]
pub(crate) fn path_buf_from(text: &str) -> (p: PathBuf)
    ensures
        p == path_of(text@),
{
    PathBuf::from(text)
}

/// Where the saved brightness of each device is kept.
pub open spec fn state_file() -> PathBuf {
    path_of("/tmp/blctl.toml"@)
}

/// Where the saved brightness of each device is kept.
pub fn state_file_path() -> (p: PathBuf)
    ensures
        p == state_file(),
{
    path_buf_from("/tmp/blctl.toml")
}

/// The table held by a state file, given what reading it gave: a missing file
/// holds no device; `None` where the file could not be read or parsed.
pub open spec fn loaded_table(read: Result<Option<String>, io::Error>) -> Option<Map<Seq<char>, u32>> {
    match read {
        Err(_) => None,
        Ok(None) => Some(Map::empty()),
        Ok(Some(text)) => match toml_u32_table(text@) {
            Ok(m) => Some(m),
            Err(_) => None,
        },
    }
}

/// `e` is the error for a state file at `path` that could not be loaded.
pub open spec fn load_error(read: Result<Option<String>, io::Error>, path: PathBuf, e: CliError) -> bool {
    match read {
        Err(source) => e == CliError::StateRead { path, source },
        Ok(Some(text)) => toml_u32_table(text@) matches Err(source) && e == CliError::StateParse { path, source },
        Ok(None) => false,
    }
}

/// Loads the table of a state file at `path` from what reading it gave
/// (`Ok(None)` for a file that does not exist).
pub fn read_state(read: Result<Option<String>, io::Error>, path: PathBuf) -> (r: Result<DeviceStates, CliError>)
    ensures
        match r {
            Ok(states) => loaded_table(read) == Some(states@),
            Err(e) => loaded_table(read) is None && load_error(read, path, e),
        },
{
    match read {
        Err(source) => Err(CliError::StateRead { path, source }),
        Ok(None) => Ok(DeviceStates::new()),
        Ok(Some(text)) => match toml_read_table(text.as_str()) {
            Ok(entries) => Ok(DeviceStates::from_entries(entries)),
            Err(source) => Err(CliError::StateParse { path, source }),
        },
    }
}

/// The text of a state file that holds `states`.
pub fn write_state(states: &DeviceStates) -> (r: Result<String, CliError>)
    ensures
        match r {
            Ok(text) => toml_pretty_text(states@) == Ok::<Seq<char>, toml::ser::Error>(text@) && toml_u32_table(text@)
                == Ok::<Map<Seq<char>, u32>, toml::de::Error>(states@),
            Err(e) => toml_pretty_text(states@) matches Err(source) && e == CliError::StateSerialize { source },
        },
{
    proof {
        use_type_invariant(states);
    }
    match toml_write_table(&states.entries) {
        Ok(text) => Ok(text),
        Err(source) => Err(CliError::StateSerialize { source }),
    }
}

/// `r` is what saving `value` for `device_id` in the state file at `path`
/// gives: the file's new contents, when it could be read, parsed and
/// written out.
pub open spec fn save_outcome(
    read: Result<Option<String>, io::Error>,
    path: PathBuf,
    device_id: Seq<char>,
    value: u32,
    r: Result<String, CliError>,
) -> bool {
    match loaded_table(read) {
        None => r matches Err(e) && load_error(read, path, e),
        Some(m) => match toml_pretty_text(m.insert(device_id, value)) {
            Ok(t) => r matches Ok(text) && text@ == t && toml_u32_table(t) == Ok::<
                Map<Seq<char>, u32>,
                toml::de::Error,
            >(m.insert(device_id, value)),
            Err(source) => r == Err::<String, CliError>(CliError::StateSerialize { source }),
        },
    }
}

/// `r` is the saved brightness for `device_id` in the state file at `path`.
pub open spec fn get_outcome(
    read: Result<Option<String>, io::Error>,
    path: PathBuf,
    device_id: Seq<char>,
    r: Result<Option<u32>, CliError>,
) -> bool {
    match loaded_table(read) {
        None => r matches Err(e) && load_error(read, path, e),
        Some(m) => r == Ok::<Option<u32>, CliError>(
            if m.contains_key(device_id) { Some(m[device_id]) } else { None },
        ),
    }
}

/// `r` is what removing `device_id` from the state file at `path` gives:
/// the file's new contents, or `None` when it holds no entry for
/// `device_id` and need not be written.
pub open spec fn remove_outcome(
    read: Result<Option<String>, io::Error>,
    path: PathBuf,
    device_id: Seq<char>,
    r: Result<Option<String>, CliError>,
) -> bool {
    match loaded_table(read) {
        None => r matches Err(e) && load_error(read, path, e),
        Some(m) => if !m.contains_key(device_id) {
            r matches Ok(None)
        } else {
            match toml_pretty_text(m.remove(device_id)) {
                Ok(t) => r matches Ok(Some(text)) && text@ == t && toml_u32_table(t) == Ok::<
                    Map<Seq<char>, u32>,
                    toml::de::Error,
                >(m.remove(device_id)),
                Err(source) => r == Err::<Option<String>, CliError>(CliError::StateSerialize { source }),
            }
        },
    }
}

/// The contents to write to the state file at `path` so that it saves
/// `value` for `device_id`, given what reading it gave.
pub fn save_at(read: Result<Option<String>, io::Error>, path: PathBuf, device_id: &str, value: u32) -> (r: Result<String, CliError>)
    ensures
        save_outcome(read, path, device_id@, value, r),
{
    let mut states = read_state(read, path)?;
    states.insert(device_id, value);
    write_state(&states)
}

/// The saved brightness for `device_id` in the state file at `path`, given
/// what reading it gave.
pub fn get_at(read: Result<Option<String>, io::Error>, path: PathBuf, device_id: &str) -> (r: Result<Option<u32>, CliError>)
    ensures
        get_outcome(read, path, device_id@, r),
{
    let states = read_state(read, path)?;
    Ok(states.get(device_id))
}

/// The contents to write to the state file at `path` so that it no longer
/// holds `device_id`, given what reading it gave; `None` when the file need
/// not be written because it holds no entry for `device_id`.
pub fn remove_at(read: Result<Option<String>, io::Error>, path: PathBuf, device_id: &str) -> (r: Result<Option<String>, CliError>)
    ensures
        remove_outcome(read, path, device_id@, r),
{
    let mut states = read_state(read, path)?;
    if states.remove(device_id) {
        let text = write_state(&states)?;
        Ok(Some(text))
    } else {
        Ok(None)
    }
}

/// Saves `value` as the brightness to restore later for `device_id`: the
/// new contents of the state file, given what reading it gave.
pub fn save(read: Result<Option<String>, io::Error>, device_id: &str, value: u32) -> (r: Result<String, CliError>)
    ensures
        save_outcome(read, state_file(), device_id@, value, r),
{
    save_at(read, state_file_path(), device_id, value)
}

/// The saved brightness for `device_id`, if any, given what reading the
/// state file gave.
pub fn get(read: Result<Option<String>, io::Error>, device_id: &str) -> (r: Result<Option<u32>, CliError>)
    ensures
        get_outcome(read, state_file(), device_id@, r),
{
    get_at(read, state_file_path(), device_id)
}

/// Removes the saved brightness entry for `device_id`, if any: the new
/// contents of the state file, or `None` when it need not be written.
pub fn remove(read: Result<Option<String>, io::Error>, device_id: &str) -> (r: Result<Option<String>, CliError>)
    ensures
        remove_outcome(read, state_file(), device_id@, r),
{
    remove_at(read, state_file_path(), device_id)
}

/// What is saved for a device is what a later lookup of it gives.
pub proof fn law_save_then_get(m: Map<Seq<char>, u32>, device_id: Seq<char>, value: u32)
    ensures
        m.insert(device_id, value).contains_key(device_id),
        m.insert(device_id, value)[device_id] == value,
{
}

/// Saving for one device leaves what is saved for every other device.
pub proof fn law_save_keeps_other_devices(m: Map<Seq<char>, u32>, device_id: Seq<char>, value: u32, other: Seq<char>)
    requires
        other != device_id,
    ensures
        m.insert(device_id, value).contains_key(other) == m.contains_key(other),
        m.contains_key(other) ==> m.insert(device_id, value)[other] == m[other],
{
}

/// Saving twice for a device keeps only the second value.
pub proof fn law_save_overwrites(m: Map<Seq<char>, u32>, device_id: Seq<char>, first: u32, second: u32)
    ensures
        m.insert(device_id, first).insert(device_id, second) == m.insert(device_id, second),
{
    assert(m.insert(device_id, first).insert(device_id, second) =~= m.insert(device_id, second));
}

/// After removal a device has nothing saved, and every other device keeps
/// what it had.
pub proof fn law_remove_deletes_the_entry(m: Map<Seq<char>, u32>, device_id: Seq<char>, other: Seq<char>)
    requires
        other != device_id,
    ensures
        !m.remove(device_id).contains_key(device_id),
        m.remove(device_id).contains_key(other) == m.contains_key(other),
        m.contains_key(other) ==> m.remove(device_id)[other] == m[other],
{
}

/// Looking up a device in a state file that does not exist finds nothing,
/// and is no error.
pub proof fn law_get_of_missing_file(path: PathBuf, device_id: Seq<char>, r: Result<Option<u32>, CliError>)
    requires
        get_outcome(Ok(None), path, device_id, r),
    ensures
        r == Ok::<Option<u32>, CliError>(None),
{
}

/// Removing a device from a state file that does not exist, or that holds
/// nothing for it, writes nothing and is no error.
pub proof fn law_remove_of_absent_entry(
    read: Result<Option<String>, io::Error>,
    path: PathBuf,
    device_id: Seq<char>,
    r: Result<Option<String>, CliError>,
)
    requires
        read is Ok,
        loaded_table(read) is Some,
        !loaded_table(read)->Some_0.contains_key(device_id),
        remove_outcome(read, path, device_id, r),
    ensures
        r matches Ok(None),
{
}

/// What is saved for a device in the state file is what a later lookup in
/// the file written gives.
pub proof fn law_file_save_then_get(
    read: Result<Option<String>, io::Error>,
    path: PathBuf,
    device_id: Seq<char>,
    value: u32,
    text: String,
    r: Result<Option<u32>, CliError>,
)
    requires
        save_outcome(read, path, device_id, value, Ok(text)),
        get_outcome(Ok(Some(text)), path, device_id, r),
    ensures
        r == Ok::<Option<u32>, CliError>(Some(value)),
{
}

/// Saving for one device in the state file leaves what the file gives for
/// every other device.
pub proof fn law_file_save_keeps_other_devices(
    read: Result<Option<String>, io::Error>,
    path: PathBuf,
    device_id: Seq<char>,
    value: u32,
    text: String,
    other: Seq<char>,
    before: Result<Option<u32>, CliError>,
    after: Result<Option<u32>, CliError>,
)
    requires
        other != device_id,
        save_outcome(read, path, device_id, value, Ok(text)),
        get_outcome(read, path, other, before),
        get_outcome(Ok(Some(text)), path, other, after),
    ensures
        after == before,
{
}

/// After removal from the state file, a lookup of the device finds nothing.
pub proof fn law_file_remove_then_get(
    read: Result<Option<String>, io::Error>,
    path: PathBuf,
    device_id: Seq<char>,
    text: String,
    r: Result<Option<u32>, CliError>,
)
    requires
        remove_outcome(read, path, device_id, Ok(Some(text))),
        get_outcome(Ok(Some(text)), path, device_id, r),
    ensures
        r == Ok::<Option<u32>, CliError>(None),
{
}

} // verus!
