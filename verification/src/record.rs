//! The records of one page, and the references drawn from them.

use vstd::prelude::*;
use crate::error::{EnumerationError, EnumerationErrorView};
use crate::repository::{ref_views, RepositoryRef, RepositoryRefView};

verus! {

/// One repository record as the platform sent it: each of the two fields
/// that the library reads, or `None` where the record has no string there.
#[derive(Debug, PartialEq, Eq)]
pub struct RawRecord {
    pub name: Option<String>,
    pub clone_url: Option<String>,
}

/// What a `RawRecord` holds.
pub struct RawRecordView {
    pub name: Option<Seq<char>>,
    pub clone_url: Option<Seq<char>>,
}

/// The characters of an optional string.
pub open spec fn text_view(text: Option<String>) -> Option<Seq<char>> {
    match text {
        Some(t) => Some(t@),
        None => None,
    }
}

impl View for RawRecord {
    type V = RawRecordView;

    open spec fn view(&self) -> RawRecordView {
        RawRecordView { name: text_view(self.name), clone_url: text_view(self.clone_url) }
    }
}

impl RawRecordView {
    /// Both required fields are there.
    pub open spec fn is_complete(self) -> bool {
        self.name is Some && self.clone_url is Some
    }

    /// The reference that a complete record stands for.
    pub open spec fn to_ref(self) -> RepositoryRefView
        recommends
            self.is_complete(),
    {
        RepositoryRefView { name: self.name->0, clone_url: self.clone_url->0 }
    }
}

/// The views of `records`, in order.
pub open spec fn record_views(records: Seq<RawRecord>) -> Seq<RawRecordView> {
    records.map_values(|r: RawRecord| r@)
}

/// One page of an account's repository list: its records in the platform's
/// order, and whether the platform signalled that more pages exist.
#[derive(Debug, PartialEq, Eq)]
pub struct Page {
    pub records: Vec<RawRecord>,
    pub has_next: bool,
}

/// What a `Page` holds.
pub struct PageView {
    pub records: Seq<RawRecordView>,
    pub has_next: bool,
}

impl View for Page {
    type V = PageView;

    open spec fn view(&self) -> PageView {
        PageView { records: record_views(self.records@), has_next: self.has_next }
    }
}

/// The position of the first record that is not complete, if there is one.
pub open spec fn first_incomplete(records: Seq<RawRecordView>) -> Option<int>
    decreases records.len(),
{
    if records.len() == 0 {
        None
    } else {
        match first_incomplete(records.drop_last()) {
            Some(i) => Some(i),
            None => if records.last().is_complete() {
                None
            } else {
                Some(records.len() - 1)
            },
        }
    }
}

/// The references that a page's records stand for, in the records' order; or
/// the error that names the first incomplete record.
pub open spec fn extract_refs(records: Seq<RawRecordView>) -> Result<
    Seq<RepositoryRefView>,
    EnumerationErrorView,
> {
    match first_incomplete(records) {
        Some(i) => Err(EnumerationErrorView::MalformedRecord { index: i as nat }),
        None => Ok(records.map_values(|r: RawRecordView| r.to_ref())),
    }
}

/// `first_incomplete` is `None` exactly when every record is complete, and
/// otherwise the least position of an incomplete one.
pub proof fn lemma_first_incomplete(records: Seq<RawRecordView>)
    ensures
        match first_incomplete(records) {
            Some(i) => {
                &&& 0 <= i < records.len()
                &&& !records[i].is_complete()
                &&& forall|j: int| 0 <= j < i ==> (#[trigger] records[j]).is_complete()
            },
            None => forall|j: int| 0 <= j < records.len() ==> (#[trigger] records[j]).is_complete(),
        },
    decreases records.len(),
{
    if records.len() > 0 {
        let front = records.drop_last();
        lemma_first_incomplete(front);
        assert(forall|j: int| 0 <= j < front.len() ==> front[j] == records[j]);
    }
}

/// Draws the references from the records of one page.
///
/// Every record must have both fields. Then there is one reference for each
/// record, in the records' order. Otherwise the first record that lacks a
/// field is reported by its position, and no reference is returned.
pub fn collect_refs(records: &Vec<RawRecord>) -> (r: Result<Vec<RepositoryRef>, EnumerationError>)
    ensures
        match r {
            Ok(refs) => {
                &&& extract_refs(record_views(records@)) == Ok::<
                    Seq<RepositoryRefView>,
                    EnumerationErrorView,
                >(ref_views(refs@))
                &&& refs.len() == records.len()
                &&& forall|j: int|
                    0 <= j < records.len() ==> (#[trigger] records@[j])@.is_complete()
                        && refs@[j]@ == records@[j]@.to_ref()
            },
            Err(e) => {
                &&& extract_refs(record_views(records@)) == Err::<
                    Seq<RepositoryRefView>,
                    EnumerationErrorView,
                >(e@)
                &&& e matches EnumerationError::MalformedRecord { index }
                &&& index < records.len()
                &&& !records@[index as int]@.is_complete()
                &&& forall|j: int| 0 <= j < index ==> (#[trigger] records@[j])@.is_complete()
            },
        },
{
    let ghost views = record_views(records@);
    proof {
        lemma_first_incomplete(views);
    }
    let mut refs: Vec<RepositoryRef> = Vec::new();
    let mut i: usize = 0;
    while i < records.len()
        invariant
            0 <= i <= records.len(),
            views == record_views(records@),
            first_incomplete(views.take(i as int)) is None,
            ref_views(refs@) == views.take(i as int).map_values(|r: RawRecordView| r.to_ref()),
        decreases records.len() - i,
    {
        let record = &records[i];
        proof {
            assert(views.take(i + 1).drop_last() =~= views.take(i as int));
            assert(views.take(i + 1).last() == record@);
        }
        match (&record.name, &record.clone_url) {
            (Some(name), Some(clone_url)) => {
                let found = RepositoryRef::new(name.clone(), clone_url.clone());
                let ghost before = refs@;
                refs.push(found);
                proof {
                    assert(found@ == views[i as int].to_ref());
                    assert(ref_views(refs@) =~= ref_views(before).push(found@));
                    assert(ref_views(refs@) =~= views.take(i + 1).map_values(
                        |r: RawRecordView| r.to_ref(),
                    ));
                }
            },
            _ => {
                proof {
                    lemma_incomplete_prefix(views, i + 1);
                    lemma_first_incomplete(views.take(i as int));
                    assert forall|j: int| 0 <= j < i implies (#[trigger] records@[j])@.is_complete() by {
                        assert(views.take(i as int)[j].is_complete());
                    }
                }
                return Err(EnumerationError::MalformedRecord { index: i });
            },
        }
        i += 1;
    }
    proof {
        assert(views.take(i as int) =~= views);
        assert forall|j: int| 0 <= j < records.len() implies (#[trigger] records@[j])@.is_complete()
            && refs@[j]@ == records@[j]@.to_ref() by {
            assert(views[j].is_complete());
            assert(ref_views(refs@)[j] == views[j].to_ref());
        }
    }
    Ok(refs)
}

/// An incomplete record found among the first `n` stays the first incomplete
/// record of the whole page.
proof fn lemma_incomplete_prefix(records: Seq<RawRecordView>, n: int)
    requires
        0 <= n <= records.len(),
        first_incomplete(records.take(n)) is Some,
    ensures
        first_incomplete(records) == first_incomplete(records.take(n)),
    decreases records.len() - n,
{
    if n < records.len() {
        assert(records.take(n + 1).drop_last() =~= records.take(n));
        lemma_incomplete_prefix(records, n + 1);
    } else {
        assert(records.take(n) =~= records);
    }
}

} // verus!
