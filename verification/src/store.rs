use vstd::prelude::*;

use crate::error::Error;

verus! {

/// The named channels of the transceiver that this crate touches.
#[derive(Clone, Copy, Debug, PartialEq, Eq, Structural)]
pub enum ChannelName {
    Voltage0,
    AltVoltage0,
    AltVoltage1,
    Out,
}

/// The attributes of the transceiver that this crate reads or writes.
#[derive(Clone, Copy, Debug, PartialEq, Eq, Structural)]
pub enum AttrName {
    SamplingFrequency,
    FilterFirConfig,
    TxPathRates,
    InOutVoltageFilterFirEn,
    VoltageFilterFirEn,
    GainControlMode,
    RfBandwidth,
    Frequency,
}

/// Where an attribute lives: on the phy device itself, or on one of its
/// channels, selected by name and direction (`true` means output).
#[derive(Clone, Copy, Debug, PartialEq, Eq, Structural)]
pub enum Target {
    Phy,
    Chan(ChannelName, bool),
}

/// One attribute of the radio's namespace.
#[derive(Clone, Copy, Debug, PartialEq, Eq, Structural)]
pub struct AttrKey {
    pub target: Target,
    pub attr: AttrName,
}

/// An attribute value as it appears in contracts.
pub enum AttrValueV {
    Int(i64),
    Bool(bool),
    Str(Seq<char>),
}

/// An attribute value as a fake store holds it.
#[derive(Debug, PartialEq)]
pub enum AttrValue {
    Int(i64),
    Bool(bool),
    Str(String),
}

impl View for AttrValue {
    type V = AttrValueV;

    open spec fn view(&self) -> AttrValueV {
        match self {
            AttrValue::Int(v) => AttrValueV::Int(*v),
            AttrValue::Bool(b) => AttrValueV::Bool(*b),
            AttrValue::Str(s) => AttrValueV::Str(s@),
        }
    }
}

/// One acknowledged write, as it appears in contracts.
pub enum WriteV {
    Int(AttrKey, i64),
    Bool(AttrKey, bool),
    Str(AttrKey, Seq<char>),
}

/// One acknowledged write, as a fake store records it.
#[derive(Debug, PartialEq)]
pub enum WriteRecord {
    Int(AttrKey, i64),
    Bool(AttrKey, bool),
    Str(AttrKey, String),
}

impl View for WriteRecord {
    type V = WriteV;

    open spec fn view(&self) -> WriteV {
        match self {
            WriteRecord::Int(k, v) => WriteV::Int(*k, *v),
            WriteRecord::Bool(k, b) => WriteV::Bool(*k, *b),
            WriteRecord::Str(k, s) => WriteV::Str(*k, s@),
        }
    }
}

/// A typed get/set capability over a radio's attribute namespace.
///
/// The model is deliberately weak, so that an adapter over real hardware
/// can honour it: `contents` is the value each attribute would report
/// right now, and a successful read returns exactly that value; `writes`
/// is the log of acknowledged writes, and a successful write appends
/// exactly one entry while a failed one appends none. Nothing ties the
/// contents after a write to the value written — hardware may round or
/// recompute attributes on its own.
pub trait AttributeStore: Sized {
    /// Unverified adapters outside this crate inherit the defaults, which
    /// model an empty namespace; the in-memory store overrides both.
    open spec fn contents(&self) -> Map<AttrKey, AttrValueV> {
        Map::empty()
    }

    open spec fn writes(&self) -> Seq<WriteV> {
        Seq::empty()
    }

    fn read_int(&self, key: AttrKey) -> (r: Result<i64, Error>)
        ensures
            r matches Ok(v) ==> self.contents().contains_key(key) && self.contents()[key]
                == AttrValueV::Int(v),
            r matches Err(e) ==> e.is_store_error(),
    ;

    fn read_bool(&self, key: AttrKey) -> (r: Result<bool, Error>)
        ensures
            r matches Ok(v) ==> self.contents().contains_key(key) && self.contents()[key]
                == AttrValueV::Bool(v),
            r matches Err(e) ==> e.is_store_error(),
    ;

    fn read_str(&self, key: AttrKey) -> (r: Result<String, Error>)
        ensures
            r matches Ok(v) ==> self.contents().contains_key(key) && self.contents()[key]
                == AttrValueV::Str(v@),
            r matches Err(e) ==> e.is_store_error(),
    ;

    fn write_int(&mut self, key: AttrKey, val: i64) -> (r: Result<(), Error>)
        ensures
            r matches Ok(_) ==> final(self).writes() == old(self).writes().push(
                WriteV::Int(key, val),
            ),
            r matches Err(e) ==> final(self).writes() == old(self).writes()
                && e.is_store_error(),
    ;

    fn write_bool(&mut self, key: AttrKey, val: bool) -> (r: Result<(), Error>)
        ensures
            r matches Ok(_) ==> final(self).writes() == old(self).writes().push(
                WriteV::Bool(key, val),
            ),
            r matches Err(e) ==> final(self).writes() == old(self).writes()
                && e.is_store_error(),
    ;

    fn write_str(&mut self, key: AttrKey, val: &str) -> (r: Result<(), Error>)
        ensures
            r matches Ok(_) ==> final(self).writes() == old(self).writes().push(
                WriteV::Str(key, val@),
            ),
            r matches Err(e) ==> final(self).writes() == old(self).writes()
                && e.is_store_error(),
    ;
}

/// The map that a list of key/value pairs stands for, later entries
/// shadowing earlier ones.
pub open spec fn entries_contents(s: Seq<(AttrKey, AttrValue)>) -> Map<AttrKey, AttrValueV>
    decreases s.len(),
{
    if s.len() == 0 {
        Map::empty()
    } else {
        entries_contents(s.drop_last()).insert(s.last().0, s.last().1@)
    }
}

/// Entries above `i` that never mention `k` do not affect what the list
/// says about `k`.
proof fn lemma_entries_lookup(s: Seq<(AttrKey, AttrValue)>, k: AttrKey, i: int)
    requires
        0 <= i <= s.len(),
        forall|j: int| i <= j < s.len() ==> (#[trigger] s[j]).0 != k,
    ensures
        entries_contents(s).contains_key(k) <==> entries_contents(s.take(i)).contains_key(k),
        entries_contents(s).contains_key(k) ==> entries_contents(s)[k] == entries_contents(
            s.take(i),
        )[k],
    decreases s.len() - i,
{
    if i < s.len() {
        lemma_entries_lookup(s, k, i + 1);
        assert(s.take(i + 1).drop_last() =~= s.take(i));
        assert(s.take(i + 1).last() == s[i]);
    } else {
        assert(s.take(i) =~= s);
    }
}

/// An in-memory attribute store: the test double the design calls for.
/// `entries` is the backing namespace, later entries shadowing earlier
/// ones; `write_log` records every write in order, so that a test can
/// check what was written and in what sequence.
pub struct FakeStore {
    pub entries: Vec<(AttrKey, AttrValue)>,
    pub write_log: Vec<WriteRecord>,
}

impl FakeStore {
    pub fn new() -> (r: FakeStore)
        ensures
            r.contents() == Map::<AttrKey, AttrValueV>::empty(),
            r.writes() == Seq::<WriteV>::empty(),
            r.entries@ == Seq::<(AttrKey, AttrValue)>::empty(),
            r.write_log@ == Seq::<WriteRecord>::empty(),
    {
        let r = FakeStore { entries: Vec::new(), write_log: Vec::new() };
        proof {
            assert(r.writes() =~= Seq::<WriteV>::empty());
        }
        r
    }

    /// Puts `val` behind `key`, without recording a write; used to lay
    /// out the state a test wants the radio to find.
    pub fn prime(&mut self, key: AttrKey, val: AttrValue)
        ensures
            final(self).contents() == old(self).contents().insert(key, val@),
            final(self).writes() == old(self).writes(),
            final(self).write_log@ == old(self).write_log@,
    {
        self.entries.push((key, val));
        proof {
            assert(self.entries@.drop_last() =~= old(self).entries@);
            assert(final(self).writes() =~= old(self).writes());
        }
    }

    /// The last value stored behind `key`, if any.
    fn lookup(&self, key: AttrKey) -> (r: Option<&AttrValue>)
        ensures
            match r {
                Some(v) => self.contents().contains_key(key) && self.contents()[key] == v@,
                None => !self.contents().contains_key(key),
            },
    {
        let n = self.entries.len();
        let mut j = n;
        loop
            invariant_except_break
                j <= n,
                n == self.entries@.len(),
                forall|t: int| j <= t < n ==> (#[trigger] self.entries@[t]).0 != key,
            decreases j,
        {
            if j == 0 {
                proof {
                    lemma_entries_lookup(self.entries@, key, 0);
                    assert(self.entries@.take(0) =~= Seq::<(AttrKey, AttrValue)>::empty());
                }
                return None;
            }
            j = j - 1;
            let entry = &self.entries[j];
            if entry.0 == key {
                proof {
                    lemma_entries_lookup(self.entries@, key, j + 1);
                    assert(self.entries@.take(j + 1).drop_last() =~= self.entries@.take(
                        j as int,
                    ));
                    assert(self.entries@.take(j + 1).last() == self.entries@[j as int]);
                }
                return Some(&entry.1);
            }
        }
    }
}

impl AttributeStore for FakeStore {
    open spec fn contents(&self) -> Map<AttrKey, AttrValueV> {
        entries_contents(self.entries@)
    }

    open spec fn writes(&self) -> Seq<WriteV> {
        self.write_log@.map_values(|rec: WriteRecord| rec@)
    }

    fn read_int(&self, key: AttrKey) -> (r: Result<i64, Error>) {
        match self.lookup(key) {
            Some(AttrValue::Int(v)) => Ok(*v),
            Some(_) => Err(Error::IIOError("attribute is not an integer".to_owned())),
            None => Err(Error::IIOError("no such attribute".to_owned())),
        }
    }

    fn read_bool(&self, key: AttrKey) -> (r: Result<bool, Error>) {
        match self.lookup(key) {
            Some(AttrValue::Bool(b)) => Ok(*b),
            Some(_) => Err(Error::IIOError("attribute is not a boolean".to_owned())),
            None => Err(Error::IIOError("no such attribute".to_owned())),
        }
    }

    fn read_str(&self, key: AttrKey) -> (r: Result<String, Error>) {
        match self.lookup(key) {
            Some(AttrValue::Str(s)) => Ok(s.clone()),
            Some(_) => Err(Error::IIOError("attribute is not a string".to_owned())),
            None => Err(Error::IIOError("no such attribute".to_owned())),
        }
    }

    fn write_int(&mut self, key: AttrKey, val: i64) -> (r: Result<(), Error>) {
        self.entries.push((key, AttrValue::Int(val)));
        self.write_log.push(WriteRecord::Int(key, val));
        proof {
            assert(final(self).writes() =~= old(self).writes().push(WriteV::Int(key, val)));
        }
        Ok(())
    }

    fn write_bool(&mut self, key: AttrKey, val: bool) -> (r: Result<(), Error>) {
        self.entries.push((key, AttrValue::Bool(val)));
        self.write_log.push(WriteRecord::Bool(key, val));
        proof {
            assert(final(self).writes() =~= old(self).writes().push(WriteV::Bool(key, val)));
        }
        Ok(())
    }

    fn write_str(&mut self, key: AttrKey, val: &str) -> (r: Result<(), Error>) {
        self.entries.push((key, AttrValue::Str(val.to_owned())));
        self.write_log.push(WriteRecord::Str(key, val.to_owned()));
        proof {
            assert(final(self).writes() =~= old(self).writes().push(WriteV::Str(key, val@)));
        }
        Ok(())
    }
}

} // verus!
