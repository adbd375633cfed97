//! Parameter maps: the opaque, string-keyed byte payloads that conditions,
//! actions and connected apps carry, and the fixed-width integer encoding the
//! engine reads thresholds from and writes observations in.

use vstd::hash_map::StringHashMap;
use vstd::prelude::*;

verus! {

/// A map from parameter names to raw bytes. Its view is the map from each
/// name, as a sequence of characters, to the bytes stored under it.
pub struct Parameters {
    entries: StringHashMap<Vec<u8>>,
    /// Every name that was ever stored, in the order of first storing.
    names: Vec<String>,
}

impl View for Parameters {
    type V = Map<Seq<char>, Seq<u8>>;

    closed spec fn view(&self) -> Self::V {
        self.entries@.map_values(|bytes: Vec<u8>| bytes@)
    }
}

/// The number that eight bytes spell in little-endian order.
pub open spec fn le_value(bytes: Seq<u8>) -> nat
    recommends
        bytes.len() == 8,
{
    (bytes[0] as nat) + (bytes[1] as nat) * 0x100 + (bytes[2] as nat) * 0x1_0000 + (bytes[3] as nat)
        * 0x100_0000 + (bytes[4] as nat) * 0x1_0000_0000 + (bytes[5] as nat) * 0x100_0000_0000 + (
    bytes[6] as nat) * 0x1_0000_0000_0000 + (bytes[7] as nat) * 0x100_0000_0000_0000
}

/// The eight little-endian bytes of `value`.
pub open spec fn le_bytes(value: u64) -> Seq<u8> {
    seq![
        (value % 0x100) as u8,
        (value / 0x100 % 0x100) as u8,
        (value / 0x1_0000 % 0x100) as u8,
        (value / 0x100_0000 % 0x100) as u8,
        (value / 0x1_0000_0000 % 0x100) as u8,
        (value / 0x100_0000_0000 % 0x100) as u8,
        (value / 0x1_0000_0000_0000 % 0x100) as u8,
        (value / 0x100_0000_0000_0000 % 0x100) as u8,
    ]
}

/// What a parameter map holds under `key`, read as a 64-bit number: the
/// entry must exist and be exactly eight bytes long.
pub open spec fn number_at(params: Map<Seq<char>, Seq<u8>>, key: Seq<char>) -> Option<u64> {
    if params.contains_key(key) && params[key].len() == 8 {
        Some(le_value(params[key]) as u64)
    } else {
        None
    }
}

/// Reading back the bytes written for a number gives that number.
pub proof fn lemma_le_round_trip(value: u64)
    ensures
        le_bytes(value).len() == 8,
        le_value(le_bytes(value)) == value,
{
    let q1 = value / 0x100;
    let q2 = q1 / 0x100;
    let q3 = q2 / 0x100;
    let q4 = q3 / 0x100;
    let q5 = q4 / 0x100;
    let q6 = q5 / 0x100;
    let q7 = q6 / 0x100;
    assert(q2 == value / 0x1_0000);
    assert(q3 == value / 0x100_0000);
    assert(q4 == value / 0x1_0000_0000);
    assert(q5 == value / 0x100_0000_0000);
    assert(q6 == value / 0x1_0000_0000_0000);
    assert(q7 == value / 0x100_0000_0000_0000);
    assert(q7 < 0x100);
    assert(value == value % 0x100 + 0x100 * q1);
    assert(q1 == q1 % 0x100 + 0x100 * q2);
    assert(q2 == q2 % 0x100 + 0x100 * q3);
    assert(q3 == q3 % 0x100 + 0x100 * q4);
    assert(q4 == q4 % 0x100 + 0x100 * q5);
    assert(q5 == q5 % 0x100 + 0x100 * q6);
    assert(q6 == q6 % 0x100 + 0x100 * q7);
}

/// Decodes eight little-endian bytes.
pub fn decode_u64(bytes: &Vec<u8>) -> (value: u64)
    requires
        bytes@.len() == 8,
    ensures
        value == le_value(bytes@),
{
    let mut acc: u64 = 0;
    let mut i: usize = 8;
    while i > 0
        invariant
            i <= 8,
            bytes@.len() == 8,
            i == 8 ==> acc == 0,
            i == 7 ==> acc == bytes@[7],
            i == 6 ==> acc == bytes@[6] + bytes@[7] * 0x100,
            i == 5 ==> acc == bytes@[5] + bytes@[6] * 0x100 + bytes@[7] * 0x1_0000,
            i == 4 ==> acc == bytes@[4] + bytes@[5] * 0x100 + bytes@[6] * 0x1_0000 + bytes@[7]
                * 0x100_0000,
            i == 3 ==> acc == bytes@[3] + bytes@[4] * 0x100 + bytes@[5] * 0x1_0000 + bytes@[6]
                * 0x100_0000 + bytes@[7] * 0x1_0000_0000,
            i == 2 ==> acc == bytes@[2] + bytes@[3] * 0x100 + bytes@[4] * 0x1_0000 + bytes@[5]
                * 0x100_0000 + bytes@[6] * 0x1_0000_0000 + bytes@[7] * 0x100_0000_0000,
            i == 1 ==> acc == bytes@[1] + bytes@[2] * 0x100 + bytes@[3] * 0x1_0000 + bytes@[4]
                * 0x100_0000 + bytes@[5] * 0x1_0000_0000 + bytes@[6] * 0x100_0000_0000 + bytes@[7]
                * 0x1_0000_0000_0000,
            i == 0 ==> acc == le_value(bytes@),
        decreases i,
    {
        i = i - 1;
        acc = acc * 0x100 + bytes[i] as u64;
    }
    acc
}

/// Encodes a number as eight little-endian bytes.
pub fn encode_u64(value: u64) -> (bytes: Vec<u8>)
    ensures
        bytes@ == le_bytes(value),
        le_value(bytes@) == value,
{
    let mut bytes: Vec<u8> = Vec::new();
    let mut rest: u64 = value;
    let mut i: usize = 0;
    while i < 8
        invariant
            i <= 8,
            bytes@.len() == i,
            i == 0 ==> rest == value,
            i == 1 ==> rest == value / 0x100,
            i == 2 ==> rest == value / 0x1_0000,
            i == 3 ==> rest == value / 0x100_0000,
            i == 4 ==> rest == value / 0x1_0000_0000,
            i == 5 ==> rest == value / 0x100_0000_0000,
            i == 6 ==> rest == value / 0x1_0000_0000_0000,
            i == 7 ==> rest == value / 0x100_0000_0000_0000,
            forall|k: int| 0 <= k < i ==> bytes@[k] == le_bytes(value)[k],
        decreases 8 - i,
    {
        bytes.push((rest % 0x100) as u8);
        rest = rest / 0x100;
        i = i + 1;
    }
    proof {
        lemma_le_round_trip(value);
    }
    bytes
}

/// Copies a sequence of bytes.
pub fn copy_bytes(bytes: &Vec<u8>) -> (copy: Vec<u8>)
    ensures
        copy@ == bytes@,
{
    let mut copy: Vec<u8> = Vec::new();
    let mut i: usize = 0;
    while i < bytes.len()
        invariant
            i <= bytes@.len(),
            copy@ == bytes@.take(i as int),
        decreases bytes@.len() - i,
    {
        copy.push(bytes[i]);
        i = i + 1;
    }
    copy
}

impl Parameters {
    /// The invariant of a parameter map: every name under which something
    /// is stored is on the map's list of names. `new` establishes it and
    /// every method keeps it.
    pub closed spec fn well_formed(self) -> bool {
        forall|key: Seq<char>| #[trigger]
            self.entries@.contains_key(key) ==> exists|i: int|
                0 <= i < self.names@.len() && (#[trigger] self.names@[i])@ == key
    }

    /// An empty parameter map.
    pub fn new() -> (params: Parameters)
        ensures
            params@ == Map::<Seq<char>, Seq<u8>>::empty(),
            params.well_formed(),
    {
        Parameters { entries: StringHashMap::new(), names: Vec::new() }
    }

    /// Stores `value` under `key`, replacing what was there.
    pub fn insert(&mut self, key: String, value: Vec<u8>)
        ensures
            final(self)@ == old(self)@.insert(key@, value@),
            old(self).well_formed() ==> final(self).well_formed(),
    {
        let ghost listed = self.names@;
        let known: bool = self.entries.contains_key(key.as_str());
        if !known {
            self.names.push(key.clone());
        }
        self.entries.insert(key, value);
        proof {
            if old(self).well_formed() {
                assert forall|name: Seq<char>| #[trigger]
                    self.entries@.contains_key(name) implies exists|i: int|
                    0 <= i < self.names@.len() && (#[trigger] self.names@[i])@ == name by {
                    if name == key@ && !known {
                        assert(self.names@[listed.len() as int]@ == name);
                    } else {
                        let i = choose|i: int|
                            0 <= i < listed.len() && (#[trigger] listed[i])@ == name;
                        assert(self.names@[i]@ == name);
                    }
                }
            }
        }
    }

    /// The stored entries as a list of names with their bytes: each pair of
    /// the list is an entry of the map, no name comes twice, and each entry
    /// of a well-formed map is in the list.
    pub fn entries(&self) -> (list: Vec<(String, Vec<u8>)>)
        ensures
            forall|i: int|
                0 <= i < list@.len() ==> self@.contains_key((#[trigger] list@[i]).0@)
                    && self@[list@[i].0@] == list@[i].1@,
            forall|i: int, j: int|
                0 <= i < j < list@.len() ==> (#[trigger] list@[i]).0@ != (#[trigger] list@[j]).0@,
            self.well_formed() ==> forall|key: Seq<char>| #[trigger]
                self@.contains_key(key) ==> exists|i: int|
                    0 <= i < list@.len() && (#[trigger] list@[i]).0@ == key,
    {
        let mut list: Vec<(String, Vec<u8>)> = Vec::new();
        let mut i: usize = 0;
        while i < self.names.len()
            invariant
                i <= self.names@.len(),
                forall|m: int|
                    0 <= m < list@.len() ==> self@.contains_key((#[trigger] list@[m]).0@)
                        && self@[list@[m].0@] == list@[m].1@,
                forall|j: int|
                    0 <= j < i && self.entries@.contains_key((#[trigger] self.names@[j])@)
                        ==> exists|m: int|
                        0 <= m < list@.len() && (#[trigger] list@[m]).0@ == self.names@[j]@,
                forall|m: int, k: int|
                    0 <= m < k < list@.len() ==> (#[trigger] list@[m]).0@ != (
                    #[trigger] list@[k]).0@,
            decreases self.names@.len() - i,
        {
            let name: &String = &self.names[i];
            let ghost before = list@;
            let seen: bool = Self::is_listed(&list, name);
            if !seen {
                match self.entries.get(name.as_str()) {
                    Some(bytes) => {
                        list.push((name.clone(), copy_bytes(bytes)));
                    },
                    None => {},
                }
            }
            proof {
                assert(forall|m: int| 0 <= m < before.len() ==> list@[m] == before[m]);
                assert forall|j: int|
                    0 <= j < i + 1 && self.entries@.contains_key(
                        (#[trigger] self.names@[j])@,
                    ) implies exists|m: int|
                    0 <= m < list@.len() && (#[trigger] list@[m]).0@ == self.names@[j]@ by {
                    if j < i {
                        let m = choose|m: int|
                            0 <= m < before.len() && (#[trigger] before[m]).0@ == self.names@[j]@;
                        assert(list@[m].0@ == self.names@[j]@);
                    } else if seen {
                        let m = choose|m: int|
                            0 <= m < before.len() && (#[trigger] before[m]).0@ == name@;
                        assert(list@[m].0@ == self.names@[j]@);
                    } else {
                        assert(list@[before.len() as int].0@ == self.names@[j]@);
                    }
                }
            }
            i = i + 1;
        }
        proof {
            if self.well_formed() {
                assert forall|key: Seq<char>| #[trigger] self@.contains_key(key) implies exists|
                    m: int,
                | 0 <= m < list@.len() && (#[trigger] list@[m]).0@ == key by {
                    let j = choose|j: int|
                        0 <= j < self.names@.len() && (#[trigger] self.names@[j])@ == key;
                    assert(self.entries@.contains_key(self.names@[j]@));
                }
            }
        }
        list
    }

    /// Whether `name` is the name of a pair of `list`.
    fn is_listed(list: &Vec<(String, Vec<u8>)>, name: &String) -> (listed: bool)
        ensures
            listed == exists|m: int| 0 <= m < list@.len() && (#[trigger] list@[m]).0@ == name@,
    {
        let mut m: usize = 0;
        while m < list.len()
            invariant
                m <= list@.len(),
                forall|k: int| 0 <= k < m ==> (#[trigger] list@[k]).0@ != name@,
            decreases list@.len() - m,
        {
            if list[m].0 == *name {
                return true;
            }
            m = m + 1;
        }
        false
    }

    /// Whether an entry is stored under `key`.
    pub fn contains_key(&self, key: &str) -> (present: bool)
        ensures
            present == self@.contains_key(key@),
    {
        self.entries.contains_key(key)
    }

    /// The bytes stored under `key`, if any.
    pub fn get(&self, key: &str) -> (found: Option<&Vec<u8>>)
        ensures
            match found {
                Some(bytes) => self@.contains_key(key@) && bytes@ == self@[key@],
                None => !self@.contains_key(key@),
            },
    {
        self.entries.get(key)
    }

    /// The number stored under `key`: present only where the entry exists
    /// and is exactly eight bytes long.
    pub fn get_u64(&self, key: &str) -> (found: Option<u64>)
        ensures
            found == number_at(self@, key@),
    {
        match self.entries.get(key) {
            Some(bytes) => {
                if bytes.len() == 8 {
                    Some(decode_u64(bytes))
                } else {
                    None
                }
            },
            None => None,
        }
    }

    /// Stores `value` under `key` in the encoding that `get_u64` reads.
    pub fn insert_u64(&mut self, key: String, value: u64)
        ensures
            final(self)@ == old(self)@.insert(key@, le_bytes(value)),
            number_at(final(self)@, key@) == Some(value),
            old(self).well_formed() ==> final(self).well_formed(),
    {
        let bytes = encode_u64(value);
        self.insert(key, bytes);
    }
}

impl Clone for Parameters {
    /// A copy of a well-formed map holds the same entries.
    fn clone(&self) -> (copy: Parameters)
        ensures
            copy.well_formed(),
            self.well_formed() ==> copy@ == self@,
    {
        let list = self.entries();
        let mut copy = Parameters::new();
        let mut i: usize = 0;
        while i < list.len()
            invariant
                i <= list@.len(),
                copy.well_formed(),
                forall|m: int|
                    0 <= m < list@.len() ==> self@.contains_key((#[trigger] list@[m]).0@)
                        && self@[list@[m].0@] == list@[m].1@,
                forall|key: Seq<char>| #[trigger]
                    copy@.contains_key(key) ==> self@.contains_key(key) && copy@[key] == self@[key],
                forall|m: int| 0 <= m < i ==> copy@.contains_key((#[trigger] list@[m]).0@),
            decreases list@.len() - i,
        {
            copy.insert(list[i].0.clone(), copy_bytes(&list[i].1));
            i = i + 1;
        }
        proof {
            if self.well_formed() {
                assert forall|key: Seq<char>| self@.contains_key(key) implies #[trigger]
                    copy@.contains_key(key) by {
                    let m = choose|m: int| 0 <= m < list@.len() && (#[trigger] list@[m]).0@ == key;
                    assert(copy@.contains_key(list@[m].0@));
                }
            }
        }
        copy
    }
}

} // verus!
