//! What the DNS provider reports about the maintained record, and what the
//! updater keeps of it.

use vstd::prelude::*;
use vstd::string::*;

verus! {

/// What the DNS provider answers to a lookup of a record by name.
#[derive(Debug, Clone, PartialEq, Eq)]
pub enum Record {
    /// No address record of that name exists.
    NotFound,
    /// An address record: its provider-assigned identifier and its value.
    A(String, String),
}

/// Mathematical model of a [`Record`].
pub enum RecordView {
    NotFound,
    A(Seq<char>, Seq<char>),
}

impl View for Record {
    type V = RecordView;

    open spec fn view(&self) -> RecordView {
        match self {
            Record::NotFound => RecordView::NotFound,
            Record::A(id, value) => RecordView::A(id@, value@),
        }
    }
}

/// The identity and value of the maintained record as last learnt from, or
/// written to, the provider.
#[derive(Debug, Clone, PartialEq, Eq)]
pub struct RecordState {
    /// Identifier that the provider assigned to the record.
    pub record_id: String,
    /// Address that the record is believed to hold.
    pub record_value: String,
}

/// Mathematical model of a [`RecordState`].
pub struct RecordStateView {
    pub record_id: Seq<char>,
    pub record_value: Seq<char>,
}

impl View for RecordState {
    type V = RecordStateView;

    open spec fn view(&self) -> RecordStateView {
        RecordStateView { record_id: self.record_id@, record_value: self.record_value@ }
    }
}

/// One entry of the provider's record listing for a zone, as plain text.
#[derive(Debug, Clone, PartialEq, Eq)]
pub struct Entry {
    /// Host label that the entry belongs to.
    pub name: String,
    /// Record type, such as `A` or `CNAME`.
    pub record_type: String,
    /// Identifier that the provider assigned to the entry.
    pub id: String,
    /// Value that the entry holds.
    pub value: String,
}

impl Entry {
    /// Whether the entry is the address record of the host `sub_domain`.
    pub open spec fn is_address_of(&self, sub_domain: Seq<char>) -> bool {
        self.name@ == sub_domain && self.record_type@ == address_type()
    }
}

/// The record that a listing holds for `sub_domain`, looking at the entries
/// from index `from` on: the first address record of that host, if there is
/// one.
pub open spec fn listed_from(entries: Seq<Entry>, sub_domain: Seq<char>, from: int) -> RecordView
    decreases entries.len() - from,
{
    if from < 0 || from >= entries.len() {
        RecordView::NotFound
    } else if entries[from].is_address_of(sub_domain) {
        RecordView::A(entries[from].id@, entries[from].value@)
    } else {
        listed_from(entries, sub_domain, from + 1)
    }
}

/// Why a full resync yielded no record to adopt.
#[derive(Debug, Clone, Copy, PartialEq, Eq)]
pub enum ResyncError {
    /// The provider answered, but holds no address record of that name.
    NotFound,
    /// The lookup itself did not complete.
    LookupFailed,
}

/// Model of a lookup outcome: `None` when the lookup did not complete.
pub open spec fn lookup_view(lookup: Option<Record>) -> Option<RecordView> {
    match lookup {
        Some(record) => Some(record@),
        None => None,
    }
}

/// What a full resync makes of a lookup outcome: the state to adopt, or the
/// reason there is none.
pub open spec fn resync_spec(lookup: Option<RecordView>) -> Result<RecordStateView, ResyncError> {
    match lookup {
        Some(RecordView::A(id, value)) => Ok(RecordStateView { record_id: id, record_value: value }),
        Some(RecordView::NotFound) => Err(ResyncError::NotFound),
        None => Err(ResyncError::LookupFailed),
    }
}

/// Model of the result of [`resync`].
pub open spec fn resync_result_view(r: Result<RecordState, ResyncError>) -> Result<
    RecordStateView,
    ResyncError,
> {
    match r {
        Ok(state) => Ok(state@),
        Err(e) => Err(e),
    }
}

/// The record type that the provider gives to IPv4 address records.
pub open spec fn address_type() -> Seq<char> {
    "A"@
}

impl Record {
    /// Reads one entry of a provider listing. Only an entry of type `A` is an
    /// address record; every other type counts as no address record at all.
    pub fn classify(record_type: &str, id: String, value: String) -> (r: Record)
        ensures
            r@ == if record_type@ == address_type() {
                RecordView::A(id@, value@)
            } else {
                RecordView::NotFound
            },
    {
        proof {
            reveal_strlit("A");
        }
        if record_type.unicode_len() == 1 && record_type.get_char(0) == 'A' {
            assert(record_type@ =~= address_type());
            Record::A(id, value)
        } else {
            Record::NotFound
        }
    }

    /// Picks the record of `sub_domain` out of a listing: the first entry
    /// that is an address record of that host. Entries of other hosts and of
    /// other types are passed over; without a match the result is
    /// `NotFound`.
    pub fn from_listing(entries: &Vec<Entry>, sub_domain: &str) -> (r: Record)
        ensures
            r@ == listed_from(entries@, sub_domain@, 0),
            r@ is A <==> exists|i: int|
                0 <= i < entries.len() && (#[trigger] entries[i]).is_address_of(sub_domain@),
    {
        let wanted = String::from_str(sub_domain);
        let mut i: usize = 0;
        while i < entries.len()
            invariant
                i <= entries.len(),
                wanted@ == sub_domain@,
                listed_from(entries@, sub_domain@, 0) == listed_from(entries@, sub_domain@, i as int),
                forall|j: int| 0 <= j < i ==> !(#[trigger] entries[j]).is_address_of(sub_domain@),
            decreases entries.len() - i,
        {
            let entry = &entries[i];
            if entry.name == wanted {
                let found = Record::classify(
                    entry.record_type.as_str(),
                    entry.id.clone(),
                    entry.value.clone(),
                );
                if let Record::A(_, _) = &found {
                    return found;
                }
            }
            i = i + 1;
        }
        Record::NotFound
    }

    /// The identifier and value of an address record; `None` for anything
    /// else.
    pub fn into_state(self) -> (r: Option<RecordState>)
        ensures
            match self@ {
                RecordView::A(id, value) => r matches Some(state) && state@ == (RecordStateView {
                    record_id: id,
                    record_value: value,
                }),
                RecordView::NotFound => r is None,
            },
    {
        match self {
            Record::A(id, value) => Some(RecordState { record_id: id, record_value: value }),
            Record::NotFound => None,
        }
    }
}

/// Decides what a full resync yields. `lookup` is the provider's answer, or
/// `None` when the lookup did not complete. Only an address record can be
/// adopted; a missing record and a failed lookup are told apart in the error.
pub fn resync(lookup: Option<Record>) -> (r: Result<RecordState, ResyncError>)
    ensures
        resync_result_view(r) == resync_spec(lookup_view(lookup)),
{
    match lookup {
        None => Err(ResyncError::LookupFailed),
        Some(record) => match record.into_state() {
            Some(state) => Ok(state),
            None => Err(ResyncError::NotFound),
        },
    }
}

} // verus!
