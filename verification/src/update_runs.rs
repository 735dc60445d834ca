//! What an update search returns when nothing fails, stated over the answers
//! of a catalog that describes its updates one by one.

use vstd::prelude::*;
use crate::protocol::{
    grants,
    Action,
    Bound,
    Event,
    Field,
    LedgerView,
    Platform,
    Resource,
    ScanError,
    UpdateText,
};
use crate::session::S_OK;
use crate::updates::{
    class_of,
    kind_of,
    label_of,
    CategoryKind,
    ClassCounts,
    DraftView,
    SummaryView,
    UpdateScanView,
    UpdateView,
    SEARCH_CRITERIA,
};
use crate::value::decimal_value;

verus! {

/// One entry of an update's category list as the catalog describes it.
pub struct CategoryData {
    pub kind: String,
    pub name: String,
    pub id: String,
}

/// One update as the catalog describes it: the two size estimates as packed
/// decimals, the texts, and the category list.
pub struct UpdateData {
    pub min: (u32, u64),
    pub max: (u32, u64),
    pub title: String,
    pub categories: Seq<CategoryData>,
    pub description: String,
}

/// The answers of a catalog for one category: the category itself, its
/// type, then its name and identifier if it classifies the update or its
/// name if it names the product, and the released category.
pub open spec fn category_answers(category: CategoryData) -> Seq<Event> {
    let head = Seq::<Event>::empty().push(Event::Granted).push(Event::Text(category.kind));
    match kind_of(category.kind@) {
        CategoryKind::Classification => head.push(Event::Text(category.name)).push(
            Event::Text(category.id),
        ).push(Event::Released),
        CategoryKind::Product => head.push(Event::Text(category.name)).push(Event::Released),
        CategoryKind::Other => head.push(Event::Released),
    }
}

/// The answers of a catalog for a category list, entry by entry.
pub open spec fn categories_answers(categories: Seq<CategoryData>) -> Seq<Event>
    decreases categories.len(),
{
    if categories.len() == 0 {
        Seq::empty()
    } else {
        categories_answers(categories.drop_last()) + category_answers(categories.last())
    }
}

/// The answers of a catalog for one update: the update itself, its two size
/// estimates, its title, its category list and the number of its entries,
/// the entries, the description, and the released list and update.
pub open spec fn update_answers(update: UpdateData) -> Seq<Event> {
    Seq::<Event>::empty().push(Event::Granted).push(
        Event::Decimal(update.min.0, update.min.1),
    ).push(Event::Decimal(update.max.0, update.max.1)).push(Event::Text(update.title)).push(
        Event::Granted,
    ).push(Event::Count(update.categories.len() as i32)) + categories_answers(update.categories)
        + Seq::<Event>::empty().push(Event::Text(update.description)).push(Event::Released).push(
        Event::Released,
    )
}

/// The answers of a catalog for all its updates, one after another.
pub open spec fn updates_answers(updates: Seq<UpdateData>) -> Seq<Event>
    decreases updates.len(),
{
    if updates.len() == 0 {
        Seq::empty()
    } else {
        updates_answers(updates.drop_last()) + update_answers(updates.last())
    }
}

/// What a category adds to the draft of its update: a classifying category
/// sets the classification to the label of its class, a product category
/// sets the product, any other leaves both as they are.
pub open spec fn draft_with(draft: DraftView, category: CategoryData) -> DraftView {
    match kind_of(category.kind@) {
        CategoryKind::Classification => DraftView {
            kind: CategoryKind::Classification,
            name: category.name@,
            classification: Some(label_of(class_of(category.id@), category.name@)),
            ..draft
        },
        CategoryKind::Product => DraftView {
            kind: CategoryKind::Product,
            product: Some(category.name@),
            ..draft
        },
        CategoryKind::Other => DraftView { kind: CategoryKind::Other, ..draft },
    }
}

/// The draft after a category list, entry by entry: of several classifying
/// or product categories the last one counts.
pub open spec fn draft_after(draft: DraftView, categories: Seq<CategoryData>) -> DraftView
    decreases categories.len(),
{
    if categories.len() == 0 {
        draft
    } else {
        draft_with(draft_after(draft, categories.drop_last()), categories.last())
    }
}

/// What a category adds to the counts: a classifying category counts once
/// under its class, any other not at all.
pub open spec fn counts_with(counts: ClassCounts, category: CategoryData) -> ClassCounts {
    if kind_of(category.kind@) == CategoryKind::Classification {
        counts.with(class_of(category.id@))
    } else {
        counts
    }
}

/// The counts after a category list, entry by entry.
pub open spec fn counts_after(counts: ClassCounts, categories: Seq<CategoryData>) -> ClassCounts
    decreases categories.len(),
{
    if categories.len() == 0 {
        counts
    } else {
        counts_with(counts_after(counts, categories.drop_last()), categories.last())
    }
}

/// The draft of an update once everything but its description is read.
pub open spec fn draft_of(update: UpdateData) -> DraftView {
    draft_after(
        DraftView {
            title: update.title@,
            min_bytes: decimal_value(update.min.0, update.min.1) as u128,
            max_bytes: decimal_value(update.max.0, update.max.1) as u128,
            ..DraftView::blank()
        },
        update.categories,
    )
}

/// The counts over all category lists of these updates.
pub open spec fn counted(updates: Seq<UpdateData>) -> ClassCounts
    decreases updates.len(),
{
    if updates.len() == 0 {
        ClassCounts::zero()
    } else {
        counts_after(counted(updates.drop_last()), updates.last().categories)
    }
}

/// The list that these updates make: each update that has a classification
/// and a product, in the order of the catalog.
pub open spec fn listed(updates: Seq<UpdateData>) -> Seq<UpdateView>
    decreases updates.len(),
{
    if updates.len() == 0 {
        Seq::empty()
    } else {
        draft_of(updates.last()).listed(updates.last().description@, listed(updates.drop_last()))
    }
}

/// A scan that is given one more answer is the scan after the answers
/// before, one step on.
pub proof fn lemma_after_push(scan: UpdateScanView, events: Seq<Event>, event: Event)
    ensures
        scan.after(events.push(event)) == scan.after(events).next(event),
{
    assert(events.push(event).drop_last() =~= events);
}

/// Answers given in two batches lead where the two batches in a row lead.
pub proof fn lemma_after_concat(scan: UpdateScanView, first: Seq<Event>, second: Seq<Event>)
    ensures
        scan.after(first + second) == scan.after(first).after(second),
    decreases second.len(),
{
    if second.len() == 0 {
        assert(first + second =~= first);
    } else {
        lemma_after_concat(scan, first, second.drop_last());
        assert((first + second).drop_last() =~= first + second.drop_last());
        assert((first + second).last() == second.last());
    }
}

/// An item that is granted goes on top of what is held; an update starts
/// from a blank draft with the read of its lower size estimate, a category
/// with the read of its type.
pub proof fn lemma_item_is_granted(scan: UpdateScanView, resource: Resource, at: u32)
    requires
        scan.ledger.pending == Action::AcquireItem(resource, at),
        resource == Resource::Update || resource == Resource::Category,
        !scan.ledger.closing,
    ensures
        scan.next(Event::Granted) == (UpdateScanView {
            ledger: LedgerView {
                pending: if resource == Resource::Update {
                    Action::Read(Field::DownloadSize(Bound::Min))
                } else {
                    Action::Read(Field::Text(UpdateText::CategoryType))
                },
                held: scan.ledger.held.push(resource),
                ..scan.ledger
            },
            draft: if resource == Resource::Update {
                DraftView::blank()
            } else {
                scan.draft
            },
            ..scan
        }),
{
    reveal(grants);
}

/// The lower size estimate is joined and kept, and the upper one asked for.
pub proof fn lemma_min_is_read(scan: UpdateScanView, hi32: u32, lo64: u64)
    requires
        scan.ledger.pending == Action::Read(Field::DownloadSize(Bound::Min)),
        !scan.ledger.closing,
    ensures
        scan.next(Event::Decimal(hi32, lo64)) == (UpdateScanView {
            ledger: LedgerView {
                pending: Action::Read(Field::DownloadSize(Bound::Max)),
                ..scan.ledger
            },
            draft: DraftView { min_bytes: decimal_value(hi32, lo64) as u128, ..scan.draft },
            ..scan
        }),
{
    reveal(grants);
}

/// The upper size estimate is joined and kept, and the title asked for.
pub proof fn lemma_max_is_read(scan: UpdateScanView, hi32: u32, lo64: u64)
    requires
        scan.ledger.pending == Action::Read(Field::DownloadSize(Bound::Max)),
        !scan.ledger.closing,
    ensures
        scan.next(Event::Decimal(hi32, lo64)) == (UpdateScanView {
            ledger: LedgerView {
                pending: Action::Read(Field::Text(UpdateText::Title)),
                ..scan.ledger
            },
            draft: DraftView { max_bytes: decimal_value(hi32, lo64) as u128, ..scan.draft },
            ..scan
        }),
{
    reveal(grants);
}

/// The title is kept, and the category list asked for.
pub proof fn lemma_title_is_read(scan: UpdateScanView, title: String)
    requires
        scan.ledger.pending == Action::Read(Field::Text(UpdateText::Title)),
        !scan.ledger.closing,
    ensures
        scan.next(Event::Text(title)) == (UpdateScanView {
            ledger: LedgerView {
                pending: Action::Acquire(Resource::Categories),
                ..scan.ledger
            },
            draft: DraftView { title: title@, ..scan.draft },
            ..scan
        }),
{
    reveal(grants);
}

/// The category list that is granted goes on top of what is held, and the
/// number of its entries is asked for.
pub proof fn lemma_list_is_granted(scan: UpdateScanView)
    requires
        scan.ledger.pending == Action::Acquire(Resource::Categories),
        !scan.ledger.closing,
    ensures
        scan.next(Event::Granted) == scan.with_ledger(
            LedgerView {
                pending: Action::Read(Field::CategoryCount),
                held: scan.ledger.held.push(Resource::Categories),
                ..scan.ledger
            },
        ),
{
    reveal(grants);
}

/// The number of entries is kept; the first entry is asked for, or the
/// description where the list is empty.
pub proof fn lemma_entries_are_counted(scan: UpdateScanView, count: i32)
    requires
        scan.ledger.pending == Action::Read(Field::CategoryCount),
        !scan.ledger.closing,
    ensures
        scan.next(Event::Count(count)) == (UpdateScanView {
            categories: count,
            ..scan
        }).to_category(0),
{
    reveal(grants);
}

/// The type of a category is kept; its name is asked for if it classifies
/// the update or names the product, and the category asked back if not.
pub proof fn lemma_kind_is_read(scan: UpdateScanView, tag: String)
    requires
        scan.ledger.pending == Action::Read(Field::Text(UpdateText::CategoryType)),
        !scan.ledger.closing,
        scan.ledger.held.len() > 0,
    ensures
        scan.next(Event::Text(tag)) == (UpdateScanView {
            ledger: if kind_of(tag@) == CategoryKind::Other {
                LedgerView {
                    pending: Action::Release(scan.ledger.held.last()),
                    held: scan.ledger.held.drop_last(),
                    ..scan.ledger
                }
            } else {
                LedgerView {
                    pending: Action::Read(Field::Text(UpdateText::CategoryName)),
                    ..scan.ledger
                }
            },
            draft: DraftView { kind: kind_of(tag@), ..scan.draft },
            ..scan
        }),
{
    reveal(grants);
}

/// The name of a classifying category is kept and its identifier asked
/// for; the name of a product category becomes the product and the
/// category is asked back.
pub proof fn lemma_name_is_read(scan: UpdateScanView, name: String)
    requires
        scan.ledger.pending == Action::Read(Field::Text(UpdateText::CategoryName)),
        !scan.ledger.closing,
        scan.ledger.held.len() > 0,
        scan.draft.kind != CategoryKind::Other,
    ensures
        scan.next(Event::Text(name)) == (if scan.draft.kind == CategoryKind::Classification {
            UpdateScanView {
                ledger: LedgerView {
                    pending: Action::Read(Field::Text(UpdateText::CategoryId)),
                    ..scan.ledger
                },
                draft: DraftView { name: name@, ..scan.draft },
                ..scan
            }
        } else {
            UpdateScanView {
                ledger: LedgerView {
                    pending: Action::Release(scan.ledger.held.last()),
                    held: scan.ledger.held.drop_last(),
                    ..scan.ledger
                },
                draft: DraftView { product: Some(name@), ..scan.draft },
                ..scan
            }
        }),
{
    reveal(grants);
}

/// The identifier of a classifying category is resolved and counted, the
/// label of its class becomes the classification, and the category is
/// asked back.
pub proof fn lemma_id_is_read(scan: UpdateScanView, id: String)
    requires
        scan.ledger.pending == Action::Read(Field::Text(UpdateText::CategoryId)),
        !scan.ledger.closing,
        scan.ledger.held.len() > 0,
    ensures
        scan.next(Event::Text(id)) == (UpdateScanView {
            ledger: LedgerView {
                pending: Action::Release(scan.ledger.held.last()),
                held: scan.ledger.held.drop_last(),
                ..scan.ledger
            },
            draft: DraftView {
                classification: Some(label_of(class_of(id@), scan.draft.name)),
                ..scan.draft
            },
            counts: scan.counts.with(class_of(id@)),
            ..scan
        }),
{
    reveal(grants);
}

/// Once a category is released, the next entry of the list is asked for,
/// or the description after the last one.
pub proof fn lemma_category_is_released(scan: UpdateScanView)
    requires
        scan.ledger.pending == Action::Release(Resource::Category),
        !scan.ledger.closing,
    ensures
        scan.next(Event::Released) == scan.to_category(scan.category + 1),
{
    reveal(grants);
}

/// The description completes the update, which joins the list if it has a
/// classification and a product, and the category list is asked back.
pub proof fn lemma_description_is_read(scan: UpdateScanView, description: String)
    requires
        scan.ledger.pending == Action::Read(Field::Text(UpdateText::Description)),
        !scan.ledger.closing,
        scan.ledger.held.len() > 0,
    ensures
        scan.next(Event::Text(description)) == (UpdateScanView {
            ledger: LedgerView {
                pending: Action::Release(scan.ledger.held.last()),
                held: scan.ledger.held.drop_last(),
                ..scan.ledger
            },
            updates: scan.draft.listed(description@, scan.updates),
            ..scan
        }),
{
    reveal(grants);
}

/// Once the category list is released, the update is asked back.
pub proof fn lemma_list_is_released(scan: UpdateScanView)
    requires
        scan.ledger.pending == Action::Release(Resource::Categories),
        !scan.ledger.closing,
        scan.ledger.held.len() > 0,
    ensures
        scan.next(Event::Released) == scan.with_ledger(
            LedgerView {
                pending: Action::Release(scan.ledger.held.last()),
                held: scan.ledger.held.drop_last(),
                ..scan.ledger
            },
        ),
{
    reveal(grants);
}

/// Once an update is released, the next one is asked for, or the search
/// winds down after the last one.
pub proof fn lemma_update_is_released(scan: UpdateScanView)
    requires
        scan.ledger.pending == Action::Release(Resource::Update),
        !scan.ledger.closing,
    ensures
        scan.next(Event::Released) == scan.to_update(scan.index + 1),
{
    reveal(grants);
}

/// One category read: the draft and the counts have taken in what the
/// category says, everything that was held is held again, and the search
/// turns to the next entry of the list, or to the description after the
/// last one.
pub proof fn lemma_category_is_read(scan: UpdateScanView, category: CategoryData)
    requires
        scan.ledger.pending == Action::AcquireItem(Resource::Category, scan.category),
        !scan.ledger.closing,
    ensures
        scan.after(category_answers(category)) == (UpdateScanView {
            draft: draft_with(scan.draft, category),
            counts: counts_with(scan.counts, category),
            ..scan
        }).to_category(scan.category + 1),
{
    let held = scan.ledger.held;
    let taken = held.push(Resource::Category);
    assert(taken.drop_last() =~= held);
    assert(taken.last() == Resource::Category);
    let e0 = Seq::<Event>::empty();
    let e1 = e0.push(Event::Granted);
    let e2 = e1.push(Event::Text(category.kind));
    let s1 = scan.next(Event::Granted);
    lemma_item_is_granted(scan, Resource::Category, scan.category);
    lemma_after_push(scan, e0, Event::Granted);
    let s2 = s1.next(Event::Text(category.kind));
    lemma_kind_is_read(s1, category.kind);
    lemma_after_push(scan, e1, Event::Text(category.kind));
    assert(scan.after(e2) == s2);
    match kind_of(category.kind@) {
        CategoryKind::Other => {
            lemma_category_is_released(s2);
            lemma_after_push(scan, e2, Event::Released);
        },
        CategoryKind::Product => {
            let e3 = e2.push(Event::Text(category.name));
            let s3 = s2.next(Event::Text(category.name));
            lemma_name_is_read(s2, category.name);
            lemma_after_push(scan, e2, Event::Text(category.name));
            lemma_category_is_released(s3);
            lemma_after_push(scan, e3, Event::Released);
        },
        CategoryKind::Classification => {
            let e3 = e2.push(Event::Text(category.name));
            let s3 = s2.next(Event::Text(category.name));
            lemma_name_is_read(s2, category.name);
            lemma_after_push(scan, e2, Event::Text(category.name));
            let e4 = e3.push(Event::Text(category.id));
            let s4 = s3.next(Event::Text(category.id));
            lemma_id_is_read(s3, category.id);
            lemma_after_push(scan, e3, Event::Text(category.id));
            lemma_category_is_released(s4);
            lemma_after_push(scan, e4, Event::Released);
        },
    }
}

/// A search that has counted the entries of a category list and turned to
/// the first of them, or to the description where there is none.
pub open spec fn at_list(scan: UpdateScanView, entries: nat) -> bool {
    &&& !scan.ledger.closing
    &&& scan.categories == entries
    &&& entries > 0 ==> scan.category == 0 && scan.ledger.pending == Action::AcquireItem(
        Resource::Category,
        0,
    )
    &&& entries == 0 ==> scan.ledger.pending == Action::Read(
        Field::Text(UpdateText::Description),
    )
}

/// The first entries of a category list read: the draft and the counts have
/// taken in what they say, everything that was held is held again, and the
/// search stands at the entry after them, or at the description after the
/// last one.
pub proof fn lemma_categories_are_read(
    scan: UpdateScanView,
    categories: Seq<CategoryData>,
    read: nat,
)
    requires
        at_list(scan, categories.len()),
        categories.len() <= i32::MAX,
        read <= categories.len(),
    ensures
        scan.after(categories_answers(categories.take(read as int))) == (UpdateScanView {
            ledger: LedgerView {
                pending: if read < categories.len() {
                    Action::AcquireItem(Resource::Category, read as u32)
                } else {
                    Action::Read(Field::Text(UpdateText::Description))
                },
                ..scan.ledger
            },
            category: if read < categories.len() {
                read as u32
            } else if read > 0 {
                (read - 1) as u32
            } else {
                scan.category
            },
            draft: draft_after(scan.draft, categories.take(read as int)),
            counts: counts_after(scan.counts, categories.take(read as int)),
            ..scan
        }),
    decreases read,
{
    if read == 0 {
        assert(categories.take(0) =~= Seq::<CategoryData>::empty());
    } else {
        let before = (read - 1) as nat;
        let front = categories.take(before as int);
        let now = categories.take(read as int);
        let entry = categories[before as int];
        assert(now.drop_last() =~= front);
        assert(now.last() == entry);
        lemma_categories_are_read(scan, categories, before);
        let previous = scan.after(categories_answers(front));
        lemma_after_concat(scan, categories_answers(front), category_answers(entry));
        lemma_category_is_read(previous, entry);
    }
}

/// The answers of a catalog for one update up to the count of its
/// categories.
pub open spec fn opening_answers(update: UpdateData) -> Seq<Event> {
    Seq::<Event>::empty().push(Event::Granted).push(
        Event::Decimal(update.min.0, update.min.1),
    ).push(Event::Decimal(update.max.0, update.max.1)).push(Event::Text(update.title)).push(
        Event::Granted,
    ).push(Event::Count(update.categories.len() as i32))
}

/// The answers of a catalog for one update from its description on.
pub open spec fn closing_answers(update: UpdateData) -> Seq<Event> {
    Seq::<Event>::empty().push(Event::Text(update.description)).push(Event::Released).push(
        Event::Released,
    )
}

/// An update opened: it is held with its category list on top, its sizes
/// and title are in a fresh draft, and the search stands at the first
/// entry of the list, or at the description where there is none.
pub proof fn lemma_update_is_opened(scan: UpdateScanView, update: UpdateData)
    requires
        scan.ledger.pending == Action::AcquireItem(Resource::Update, scan.index),
        !scan.ledger.closing,
        update.categories.len() <= i32::MAX,
    ensures
        at_list(scan.after(opening_answers(update)), update.categories.len()),
        scan.after(opening_answers(update)) == (UpdateScanView {
            ledger: scan.after(opening_answers(update)).ledger,
            categories: update.categories.len() as i32,
            category: scan.after(opening_answers(update)).category,
            draft: DraftView {
                title: update.title@,
                min_bytes: decimal_value(update.min.0, update.min.1) as u128,
                max_bytes: decimal_value(update.max.0, update.max.1) as u128,
                ..DraftView::blank()
            },
            ..scan
        }),
        scan.after(opening_answers(update)).ledger.held == scan.ledger.held.push(
            Resource::Update,
        ).push(Resource::Categories),
        scan.after(opening_answers(update)).ledger.failure == scan.ledger.failure,
{
    let e0 = Seq::<Event>::empty();
    let a1 = Event::Granted;
    let a2 = Event::Decimal(update.min.0, update.min.1);
    let a3 = Event::Decimal(update.max.0, update.max.1);
    let a4 = Event::Text(update.title);
    let a5 = Event::Granted;
    let a6 = Event::Count(update.categories.len() as i32);
    let e1 = e0.push(a1);
    let e2 = e1.push(a2);
    let e3 = e2.push(a3);
    let e4 = e3.push(a4);
    let e5 = e4.push(a5);
    let s1 = scan.next(a1);
    lemma_item_is_granted(scan, Resource::Update, scan.index);
    lemma_after_push(scan, e0, a1);
    let s2 = s1.next(a2);
    lemma_min_is_read(s1, update.min.0, update.min.1);
    lemma_after_push(scan, e1, a2);
    let s3 = s2.next(a3);
    lemma_max_is_read(s2, update.max.0, update.max.1);
    lemma_after_push(scan, e2, a3);
    let s4 = s3.next(a4);
    lemma_title_is_read(s3, update.title);
    lemma_after_push(scan, e3, a4);
    let s5 = s4.next(a5);
    lemma_list_is_granted(s4);
    lemma_after_push(scan, e4, a5);
    lemma_entries_are_counted(s5, update.categories.len() as i32);
    lemma_after_push(scan, e5, a6);
}

/// An update closed: it has joined the list if its draft has a
/// classification and a product, list and update are given back, and the
/// search turns to the next update, or winds down after the last one.
pub proof fn lemma_update_is_closed(scan: UpdateScanView, update: UpdateData, below: Seq<Resource>)
    requires
        scan.ledger.pending == Action::Read(Field::Text(UpdateText::Description)),
        !scan.ledger.closing,
        scan.ledger.held == below.push(Resource::Update).push(Resource::Categories),
    ensures
        scan.after(closing_answers(update)) == (UpdateScanView {
            ledger: LedgerView { held: below, ..scan.ledger },
            updates: scan.draft.listed(update.description@, scan.updates),
            ..scan
        }).to_update(scan.index + 1),
{
    let e0 = Seq::<Event>::empty();
    let a1 = Event::Text(update.description);
    let e1 = e0.push(a1);
    let e2 = e1.push(Event::Released);
    let upper = below.push(Resource::Update);
    let full = upper.push(Resource::Categories);
    assert(full.drop_last() =~= upper);
    assert(upper.drop_last() =~= below);
    let s1 = scan.next(a1);
    lemma_description_is_read(scan, update.description);
    lemma_after_push(scan, e0, a1);
    let s2 = s1.next(Event::Released);
    lemma_list_is_released(s1);
    lemma_after_push(scan, e1, Event::Released);
    lemma_update_is_released(s2);
    lemma_after_push(scan, e2, Event::Released);
}

/// One update read: the counts have taken in its category list, the update
/// has joined the list if it has a classification and a product, everything
/// that was held is held again, and the search turns to the next update,
/// or winds down after the last one.
pub proof fn lemma_update_is_read(scan: UpdateScanView, update: UpdateData)
    requires
        scan.ledger.pending == Action::AcquireItem(Resource::Update, scan.index),
        !scan.ledger.closing,
        update.categories.len() <= i32::MAX,
    ensures
        scan.after(update_answers(update)).total == scan.total,
        scan.after(update_answers(update)).counts == counts_after(scan.counts, update.categories),
        scan.after(update_answers(update)).updates == draft_of(update).listed(
            update.description@,
            scan.updates,
        ),
        scan.after(update_answers(update)).ledger == scan.to_update(scan.index + 1).ledger,
        scan.after(update_answers(update)).index == scan.to_update(scan.index + 1).index,
{
    let opening = opening_answers(update);
    let entries = categories_answers(update.categories);
    let ending = closing_answers(update);
    assert(update_answers(update) =~= opening + entries + ending);
    lemma_after_concat(scan, opening + entries, ending);
    lemma_after_concat(scan, opening, entries);
    lemma_update_is_opened(scan, update);
    let opened = scan.after(opening);
    lemma_categories_are_read(opened, update.categories, update.categories.len());
    assert(update.categories.take(update.categories.len() as int) =~= update.categories);
    let read = opened.after(entries);
    lemma_update_is_closed(read, update, scan.ledger.held);
}

/// A search that has opened the session and the update session, created the
/// searcher, searched and fetched the result's collection, and now asks
/// how many updates there are.
pub open spec fn searched() -> UpdateScanView {
    UpdateScanView::begin(Platform::Windows).next(Event::Status(S_OK)).next(Event::Granted).next(
        Event::Granted,
    ).next(Event::Granted).next(Event::Granted)
}

/// Nothing has failed and nothing is counted or listed yet when the search
/// asks for the number of updates; the five resources down to the
/// collection are held.
pub proof fn lemma_search_is_under_way()
    ensures
        searched().ledger.pending == Action::Read(Field::UpdateCount),
        !searched().ledger.closing,
        searched().ledger.failure is None,
        searched().ledger.held.len() == 5,
        searched().counts == ClassCounts::zero(),
        searched().updates == Seq::<UpdateView>::empty(),
{
    reveal(grants);
    let opened = UpdateScanView::begin(Platform::Windows).next(Event::Status(S_OK));
    assert(opened.ledger.held.len() == 1);
    let session = opened.next(Event::Granted);
    assert(session.ledger.held.len() == 2);
    let searcher = session.next(Event::Granted);
    assert(searcher.ledger.held.len() == 3);
    let result = searcher.next(Event::Granted);
    assert(result.ledger.held.len() == 4);
    let collection = result.next(Event::Granted);
    assert(collection.ledger.held.len() == 5);
}

/// The first updates of a catalog read: the counts have taken in their
/// category lists, those with a classification and a product are listed in
/// the order of the catalog, and the search stands at the update after
/// them, or winds down after the last one.
pub proof fn lemma_updates_are_read(updates: Seq<UpdateData>, read: nat)
    requires
        updates.len() <= i32::MAX,
        forall|i: int| 0 <= i < updates.len() ==> (#[trigger] updates[i]).categories.len()
            <= i32::MAX,
        read <= updates.len(),
    ensures
        ({
            let scan = searched().next(Event::Count(updates.len() as i32)).after(
                updates_answers(updates.take(read as int)),
            );
            &&& scan.total == updates.len()
            &&& scan.counts == counted(updates.take(read as int))
            &&& scan.updates == listed(updates.take(read as int))
            &&& scan.ledger.failure is None
            &&& read < updates.len() ==> !scan.ledger.closing && scan.index == read
                && scan.ledger.pending == Action::AcquireItem(Resource::Update, read as u32)
                && scan.ledger.held == searched().ledger.held
            &&& read == updates.len() ==> scan.ledger.closing && scan.ledger.winding_down()
                && scan.ledger.held.len() == 4
        }),
    decreases read,
{
    reveal(grants);
    lemma_search_is_under_way();
    let start = searched().next(Event::Count(updates.len() as i32));
    if read == 0 {
        assert(updates.take(0) =~= Seq::<UpdateData>::empty());
        assert(start.updates =~= Seq::<UpdateView>::empty());
        assert(searched().ledger.held.drop_last().len() == 4);
    } else {
        let before = (read - 1) as nat;
        let front = updates.take(before as int);
        let now = updates.take(read as int);
        let update = updates[before as int];
        assert(now.drop_last() =~= front);
        assert(now.last() == update);
        lemma_updates_are_read(updates, before);
        let previous = start.after(updates_answers(front));
        lemma_after_concat(start, updates_answers(front), update_answers(update));
        lemma_update_is_read(previous, update);
        assert(searched().ledger.held.drop_last().len() == 4);
    }
}

/// Once a search winds down, nothing the caller answers changes what it
/// returns in the end.
pub proof fn lemma_closing_keeps_result(scan: UpdateScanView, events: Seq<Event>)
    requires
        scan.ledger.closing,
    ensures
        scan.after(events).ledger.closing,
        scan.after(events).ledger.failure == scan.ledger.failure,
        scan.after(events).total == scan.total,
        scan.after(events).counts == scan.counts,
        scan.after(events).updates == scan.updates,
    decreases events.len(),
{
    if events.len() > 0 {
        lemma_closing_keeps_result(scan, events.drop_last());
    }
}

/// What an update search returns when nothing fails: the session opens,
/// the update session, the searcher, the search result and its collection
/// are granted, and the catalog describes its updates one by one. Five
/// answers later the search is over. Its result reports as the total the
/// number of updates in the catalog, counts every classifying category
/// under its class, and lists, in the order of the catalog, each update
/// that has a classification and a product; an update that lacks either is
/// counted in the total and left out of the list.
pub proof fn lemma_search_returns_the_updates(updates: Seq<UpdateData>, answers: Seq<Event>)
    requires
        updates.len() <= i32::MAX,
        forall|i: int| 0 <= i < updates.len() ==> (#[trigger] updates[i]).categories.len()
            <= i32::MAX,
        answers.len() >= 5,
    ensures
        searched().next(Event::Count(updates.len() as i32)).after(
            updates_answers(updates),
        ).after(answers).outcome() == Ok::<SummaryView, ScanError>(
            SummaryView {
                total_count: updates.len() as i32,
                counts: counted(updates),
                update_list: listed(updates),
                query: SEARCH_CRITERIA@,
            },
        ),
{
    lemma_updates_are_read(updates, updates.len());
    assert(updates.take(updates.len() as int) =~= updates);
    let read = searched().next(Event::Count(updates.len() as i32)).after(
        updates_answers(updates),
    );
    crate::updates::lemma_winding_down_is_unwinding(read, answers);
    lemma_closing_keeps_result(read, answers);
}

} // verus!
