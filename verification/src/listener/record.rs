//! A record of the security event log, as the poller receives it.

use crate::text::text_eq;
use vstd::prelude::*;

verus! {

/// One named value of a record's event data.
#[derive(Debug, Clone)]
pub struct DataField {
    pub name: String,
    pub value: String,
}

/// A record as the log source returns it: the text of its creation time, its
/// record number, and its named values in the order in which they stand.
#[derive(Debug, Clone)]
pub struct RawRecord {
    pub system_time: String,
    pub event_record_id: u32,
    pub data: Vec<DataField>,
}

/// A `DataField` with its texts as sequences of characters.
pub struct DataFieldView {
    pub name: Seq<char>,
    pub value: Seq<char>,
}

/// A `RawRecord` with its texts as sequences of characters.
pub struct RawRecordView {
    pub system_time: Seq<char>,
    pub event_record_id: u32,
    pub data: Seq<DataFieldView>,
}

impl View for DataField {
    type V = DataFieldView;

    open spec fn view(&self) -> DataFieldView {
        DataFieldView { name: self.name@, value: self.value@ }
    }
}

/// The views of a run of fields.
pub open spec fn fields_view(data: Seq<DataField>) -> Seq<DataFieldView> {
    Seq::new(data.len(), |i: int| data[i]@)
}

impl View for RawRecord {
    type V = RawRecordView;

    open spec fn view(&self) -> RawRecordView {
        RawRecordView {
            system_time: self.system_time@,
            event_record_id: self.event_record_id,
            data: fields_view(self.data@),
        }
    }
}

/// The value that `data` gives to `name`: that of the last field so named,
/// or `None` where no field has that name.
pub open spec fn field_value(data: Seq<DataFieldView>, name: Seq<char>) -> Option<Seq<char>>
    decreases data.len(),
{
    if data.len() == 0 {
        None
    } else if data.last().name == name {
        Some(data.last().value)
    } else {
        field_value(data.drop_last(), name)
    }
}

/// An optional text as its characters.
pub open spec fn text_of(t: Option<String>) -> Option<Seq<char>> {
    match t {
        Some(s) => Some(s@),
        None => None,
    }
}

impl RawRecord {
    /// The value that this record gives to `name`: a later field overrides an
    /// earlier one of the same name.
    pub fn field(&self, name: &str) -> (r: Option<String>)
        ensures
            text_of(r) == field_value(self@.data, name@),
    {
        let ghost all = fields_view(self.data@);
        let mut i: usize = self.data.len();
        assert(all.subrange(0, i as int) =~= all);
        while i > 0
            invariant
                i <= self.data.len(),
                all == fields_view(self.data@),
                field_value(all, name@) == field_value(all.subrange(0, i as int), name@),
            decreases i,
        {
            i -= 1;
            let ghost upto = all.subrange(0, i + 1);
            assert(upto.last() == self.data@[i as int]@);
            assert(upto.drop_last() =~= all.subrange(0, i as int));
            if text_eq(self.data[i].name.as_str(), name) {
                return Some(self.data[i].value.clone());
            }
        }
        None
    }
}

} // verus!
