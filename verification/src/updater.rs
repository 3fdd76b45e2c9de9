//! The change log of an OBS settings object: settings are recorded in the order they are
//! set and written to the object in that order when the log is applied, so the last value
//! set for a key is the one the object keeps.
use vstd::prelude::*;

verus! {

/// One recorded setting.
#[derive(Debug, Clone)]
pub enum ObsDataChange {
    String(String, String),
    Int(String, i64),
    Bool(String, bool),
    /// A floating-point setting, as the bits of its IEEE 754 double representation.
    Double(String, u64),
}

/// The value of a setting.
pub ghost enum DataValue {
    Text(Seq<char>),
    Int(i64),
    Bool(bool),
    Double(u64),
}

/// The key a change sets.
pub open spec fn change_key(c: ObsDataChange) -> Seq<char> {
    match c {
        ObsDataChange::String(k, _) => k@,
        ObsDataChange::Int(k, _) => k@,
        ObsDataChange::Bool(k, _) => k@,
        ObsDataChange::Double(k, _) => k@,
    }
}

/// The value a change sets.
pub open spec fn change_value(c: ObsDataChange) -> DataValue {
    match c {
        ObsDataChange::String(_, v) => DataValue::Text(v@),
        ObsDataChange::Int(_, v) => DataValue::Int(v),
        ObsDataChange::Bool(_, v) => DataValue::Bool(v),
        ObsDataChange::Double(_, v) => DataValue::Double(v),
    }
}

/// The settings that writing `changes` in order over `base` leaves.
pub open spec fn applied(base: Map<Seq<char>, DataValue>, changes: Seq<ObsDataChange>) -> Map<Seq<char>, DataValue>
    decreases changes.len(),
{
    if changes.len() == 0 {
        base
    } else {
        applied(base, changes.drop_last()).insert(change_key(changes.last()), change_value(changes.last()))
    }
}

/// Records settings to write to an OBS settings object. Nothing is written until the
/// recorded changes are applied.
#[derive(Debug)]
pub struct ObsDataUpdater {
    changes: Vec<ObsDataChange>,
}

impl View for ObsDataUpdater {
    type V = Seq<ObsDataChange>;

    closed spec fn view(&self) -> Seq<ObsDataChange> {
        self.changes@
    }
}

impl ObsDataUpdater {
    /// An updater with nothing recorded.
    pub fn new() -> (r: Self)
        ensures
            r@ == Seq::<ObsDataChange>::empty(),
    {
        ObsDataUpdater { changes: Vec::new() }
    }

    /// Records that `key` is set to the text `value`.
    pub fn set_string_ref(&mut self, key: &str, value: &str)
        ensures
            final(self)@.len() == old(self)@.len() + 1,
            final(self)@.drop_last() == old(self)@,
            change_key(final(self)@.last()) == key@,
            change_value(final(self)@.last()) == DataValue::Text(value@),
    {
        self.changes.push(ObsDataChange::String(key.to_owned(), value.to_owned()));
        proof {
            assert(self@.drop_last() =~= old(self)@);
        }
    }

    /// Records that `key` is set to the text `value`, and gives the updater back.
    pub fn set_string(self, key: &str, value: &str) -> (r: Self)
        ensures
            r@.len() == self@.len() + 1,
            r@.drop_last() == self@,
            change_key(r@.last()) == key@,
            change_value(r@.last()) == DataValue::Text(value@),
    {
        let mut s = self;
        s.set_string_ref(key, value);
        s
    }

    /// Records that `key` is set to the integer `value`.
    pub fn set_int_ref(&mut self, key: &str, value: i64)
        ensures
            final(self)@.len() == old(self)@.len() + 1,
            final(self)@.drop_last() == old(self)@,
            change_key(final(self)@.last()) == key@,
            change_value(final(self)@.last()) == DataValue::Int(value),
    {
        self.changes.push(ObsDataChange::Int(key.to_owned(), value));
        proof {
            assert(self@.drop_last() =~= old(self)@);
        }
    }

    /// Records that `key` is set to the integer `value`, and gives the updater back.
    pub fn set_int(self, key: &str, value: i64) -> (r: Self)
        ensures
            r@.len() == self@.len() + 1,
            r@.drop_last() == self@,
            change_key(r@.last()) == key@,
            change_value(r@.last()) == DataValue::Int(value),
    {
        let mut s = self;
        s.set_int_ref(key, value);
        s
    }

    /// Records that `key` is set to the flag `value`.
    pub fn set_bool_ref(&mut self, key: &str, value: bool)
        ensures
            final(self)@.len() == old(self)@.len() + 1,
            final(self)@.drop_last() == old(self)@,
            change_key(final(self)@.last()) == key@,
            change_value(final(self)@.last()) == DataValue::Bool(value),
    {
        self.changes.push(ObsDataChange::Bool(key.to_owned(), value));
        proof {
            assert(self@.drop_last() =~= old(self)@);
        }
    }

    /// Records that `key` is set to the flag `value`, and gives the updater back.
    pub fn set_bool(self, key: &str, value: bool) -> (r: Self)
        ensures
            r@.len() == self@.len() + 1,
            r@.drop_last() == self@,
            change_key(r@.last()) == key@,
            change_value(r@.last()) == DataValue::Bool(value),
    {
        let mut s = self;
        s.set_bool_ref(key, value);
        s
    }

    /// The recorded changes, in the order they are to be written.
    pub fn changes(&self) -> (r: &[ObsDataChange])
        ensures
            r@ == self@,
    {
        self.changes.as_slice()
    }

    /// Gives up the recorded changes, in the order they are to be written.
    pub fn into_changes(self) -> (r: Vec<ObsDataChange>)
        ensures
            r@ == self@,
    {
        self.changes
    }
}

/// Reading a key after a setting was recorded gives the value recorded last for it; every
/// other key reads as before.
pub proof fn law_last_setting_wins(base: Map<Seq<char>, DataValue>, changes: Seq<ObsDataChange>, c: ObsDataChange)
    ensures
        applied(base, changes.push(c))[change_key(c)] == change_value(c),
        applied(base, changes.push(c)).contains_key(change_key(c)),
        forall|k: Seq<char>|
            k != change_key(c) ==> (#[trigger] applied(base, changes.push(c)).contains_key(k) <==> applied(
                base,
                changes,
            ).contains_key(k)) && applied(base, changes.push(c))[k] == applied(base, changes)[k],
{
    assert(changes.push(c).drop_last() =~= changes);
}

/// Keys that no recorded change sets keep the value they had.
pub proof fn law_untouched_keys_keep_values(base: Map<Seq<char>, DataValue>, changes: Seq<ObsDataChange>, k: Seq<char>)
    requires
        forall|i: int| 0 <= i < changes.len() ==> change_key(#[trigger] changes[i]) != k,
    ensures
        applied(base, changes).contains_key(k) == base.contains_key(k),
        applied(base, changes)[k] == base[k],
    decreases changes.len(),
{
    if changes.len() > 0 {
        let rest = changes.drop_last();
        assert forall|i: int| 0 <= i < rest.len() implies change_key(#[trigger] rest[i]) != k by {
            assert(rest[i] == changes[i]);
        }
        assert(change_key(changes[changes.len() - 1]) != k);
        law_untouched_keys_keep_values(base, rest, k);
    }
}

} // verus!
