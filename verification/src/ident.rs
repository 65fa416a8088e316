//! Record identifiers.

use crate::copy::DeepClone;
use vstd::prelude::*;

verus! {

/// Whether `id`, read as the sixteen bytes of a UUID with the first byte
/// highest, carries version 7 and the RFC variant.
pub open spec fn is_uuid_v7(id: u128) -> bool {
    (id >> 76u128) & 0xfu128 == 7u128 && (id >> 62u128) & 0x3u128 == 2u128
}

/// Calls `uuid::Uuid::now_v7` and hands the identifier back as the integer
/// that `Uuid::as_u128` gives. Trusted: whatever the clock and the random
/// source supply, the version and variant fields are those of version 7.
/// The call reads the system clock and the system's random source.
#[verifier::external_body]
pub(crate) fn now_v7() -> (id: u128)
    ensures
        is_uuid_v7(id),
{
    uuid::Uuid::now_v7().as_u128()
}

/// The key of a record within its table.
#[derive(Debug, PartialEq, Eq)]
pub enum RecordKey {
    /// A UUID, as the integer of its sixteen bytes.
    Uuid(u128),
    /// A number.
    Number(i64),
    /// A text.
    Text(String),
}

/// The model of a record key.
pub enum RecordKeyView {
    Uuid(u128),
    Number(i64),
    Text(Seq<char>),
}

impl DeepView for RecordKey {
    type V = RecordKeyView;

    open spec fn deep_view(&self) -> RecordKeyView {
        match self {
            RecordKey::Uuid(id) => RecordKeyView::Uuid(*id),
            RecordKey::Number(n) => RecordKeyView::Number(*n),
            RecordKey::Text(t) => RecordKeyView::Text(t@),
        }
    }
}

impl DeepClone for RecordKey {
    fn deep_clone(&self) -> (copy: RecordKey) {
        match self {
            RecordKey::Uuid(id) => RecordKey::Uuid(*id),
            RecordKey::Number(n) => RecordKey::Number(*n),
            RecordKey::Text(t) => RecordKey::Text(t.clone()),
        }
    }
}

impl Clone for RecordKey {
    fn clone(&self) -> (copy: RecordKey)
        ensures
            copy.deep_view() == self.deep_view(),
    {
        self.deep_clone()
    }
}

/// The identifier of a record: its table and its key within the table.
#[derive(Debug, PartialEq, Eq)]
pub struct RecordId {
    pub table: String,
    pub key: RecordKey,
}

/// The model of a record identifier.
pub struct RecordIdView {
    pub table: Seq<char>,
    pub key: RecordKeyView,
}

impl DeepView for RecordId {
    type V = RecordIdView;

    open spec fn deep_view(&self) -> RecordIdView {
        RecordIdView { table: self.table@, key: self.key.deep_view() }
    }
}

impl DeepClone for RecordId {
    fn deep_clone(&self) -> (copy: RecordId) {
        RecordId { table: self.table.clone(), key: self.key.deep_clone() }
    }
}

impl Clone for RecordId {
    fn clone(&self) -> (copy: RecordId)
        ensures
            copy.deep_view() == self.deep_view(),
    {
        self.deep_clone()
    }
}

impl RecordId {
    /// The identifier of the record with the given key in the given table.
    pub fn from_table_key(table: &str, key: RecordKey) -> (id: RecordId)
        ensures
            id.table@ == table@,
            id.key == key,
    {
        RecordId { table: table.to_owned(), key }
    }

    /// Whether the identifier names a record of `table` by a version 7 UUID.
    pub open spec fn is_generated_in(&self, table: Seq<char>) -> bool {
        &&& self.table@ == table
        &&& self.key matches RecordKey::Uuid(id) && is_uuid_v7(id)
    }

    /// A new identifier in `table`, keyed by a version 7 UUID taken now.
    pub fn generate(table: &str) -> (id: RecordId)
        ensures
            id.is_generated_in(table@),
    {
        let key: u128 = now_v7();
        RecordId::from_table_key(table, RecordKey::Uuid(key))
    }
}

} // verus!
