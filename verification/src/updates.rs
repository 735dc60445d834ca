//! The update collector: searches the update catalog for what is not yet
//! installed and classifies every pending update.
//!
//! The search is the one call of this layer that may block for seconds. It
//! is issued once; a failure is surfaced and never retried.

use vstd::prelude::*;
use crate::protocol::{
    acquisitions,
    follows,
    granted,
    grants,
    is_run,
    lemma_finished_run_is_balanced,
    lemma_orderly_step,
    lemma_session_is_closed_last,
    lemma_winding_down,
    refusal,
    releases,
    Action,
    Bound,
    Event,
    Field,
    Ledger,
    LedgerView,
    Move,
    Platform,
    Resource,
    ScanError,
    UpdateText,
};
use crate::value::{decimal_to_u128, decimal_value};

verus! {

/// The search filter: everything that is not installed yet.
pub const SEARCH_CRITERIA: &'static str = "IsInstalled=0";

/// Type tag of the category that classifies an update.
pub const CLASSIFICATION_TYPE: &'static str = "UpdateClassification";

/// Type tag of the category that names the product an update is for.
pub const PRODUCT_TYPE: &'static str = "Product";

/// Identifier of the class of critical updates.
pub const CRITICAL_UPDATES_GUID: &'static str = "e6cf1350-c01b-414d-a61f-263d14d133b4";

/// Identifier of the class of security updates.
pub const SECURITY_UPDATES_GUID: &'static str = "0fa1201d-4330-4fa8-8ae9-b877473b6441";

/// Identifier of the class of definition updates.
pub const DEFINITION_UPDATES_GUID: &'static str = "e0789628-ce08-4437-be74-2495b842f43b";

/// Identifier of the class of feature packs.
pub const FEATURE_UPDATES_GUID: &'static str = "b54e7d24-7add-428f-8b75-90a396fa584f";

/// Identifier of the class of driver updates.
pub const DRIVER_UPDATES_GUID: &'static str = "ebfc1fc5-71a4-4f7b-9aca-3b9a503104a0";

/// The classes of updates that the collector tells apart.
#[derive(Clone, Copy, Debug, PartialEq, Eq, Structural)]
pub enum Classification {
    Critical,
    Security,
    Definition,
    Feature,
    Driver,
    Other,
}

/// What an entry of an update's category list is about.
#[derive(Clone, Copy, Debug, PartialEq, Eq, Structural)]
pub enum CategoryKind {
    Classification,
    Product,
    Other,
}

/// How many classifying categories of each class the search returned. A
/// count that has reached `i32::MAX` stays there.
#[derive(Clone, Copy, Debug, PartialEq, Eq, Structural)]
pub struct ClassCounts {
    pub critical_count: i32,
    pub security_count: i32,
    pub definition_count: i32,
    pub feature_count: i32,
    pub driver_count: i32,
    pub other_count: i32,
}

/// One pending update.
#[derive(Debug)]
pub struct UpdateInfo {
    pub title: String,
    pub classification: String,
    /// Lower estimate of the download size, in bytes.
    pub min_bytes: u128,
    /// Upper estimate of the download size, in bytes.
    pub max_bytes: u128,
    pub product: String,
    pub description: String,
}

/// The pending updates and what they add up to.
#[derive(Debug)]
pub struct UpdateSummary {
    /// Number of updates that the search returned, listed or not.
    pub total_count: i32,
    pub critical_count: i32,
    pub security_count: i32,
    pub definition_count: i32,
    pub feature_count: i32,
    pub driver_count: i32,
    pub other_count: i32,
    pub update_list: Vec<UpdateInfo>,
    pub query: String,
}

/// Mathematical model of an [`UpdateInfo`].
pub struct UpdateView {
    pub title: Seq<char>,
    pub classification: Seq<char>,
    pub min_bytes: u128,
    pub max_bytes: u128,
    pub product: Seq<char>,
    pub description: Seq<char>,
}

impl View for UpdateInfo {
    type V = UpdateView;

    open spec fn view(&self) -> UpdateView {
        UpdateView {
            title: self.title@,
            classification: self.classification@,
            min_bytes: self.min_bytes,
            max_bytes: self.max_bytes,
            product: self.product@,
            description: self.description@,
        }
    }
}

/// The models of a list of updates, in order.
pub open spec fn update_views(updates: Seq<UpdateInfo>) -> Seq<UpdateView> {
    updates.map_values(|u: UpdateInfo| u@)
}

/// Mathematical model of an [`UpdateSummary`].
pub struct SummaryView {
    pub total_count: i32,
    pub counts: ClassCounts,
    pub update_list: Seq<UpdateView>,
    pub query: Seq<char>,
}

impl View for UpdateSummary {
    type V = SummaryView;

    open spec fn view(&self) -> SummaryView {
        SummaryView {
            total_count: self.total_count,
            counts: ClassCounts {
                critical_count: self.critical_count,
                security_count: self.security_count,
                definition_count: self.definition_count,
                feature_count: self.feature_count,
                driver_count: self.driver_count,
                other_count: self.other_count,
            },
            update_list: update_views(self.update_list@),
            query: self.query@,
        }
    }
}

impl UpdateSummary {
    /// The six class counts of the summary as one value.
    pub fn counts(&self) -> (counts: ClassCounts)
        ensures
            counts == self@.counts,
    {
        ClassCounts {
            critical_count: self.critical_count,
            security_count: self.security_count,
            definition_count: self.definition_count,
            feature_count: self.feature_count,
            driver_count: self.driver_count,
            other_count: self.other_count,
        }
    }
}

/// The class that a category identifier stands for: one of the five known
/// identifiers, or other.
pub open spec fn class_of(id: Seq<char>) -> Classification {
    if id == CRITICAL_UPDATES_GUID@ {
        Classification::Critical
    } else if id == SECURITY_UPDATES_GUID@ {
        Classification::Security
    } else if id == DEFINITION_UPDATES_GUID@ {
        Classification::Definition
    } else if id == FEATURE_UPDATES_GUID@ {
        Classification::Feature
    } else if id == DRIVER_UPDATES_GUID@ {
        Classification::Driver
    } else {
        Classification::Other
    }
}

/// What a category type tag says the category is about.
pub open spec fn kind_of(tag: Seq<char>) -> CategoryKind {
    if tag == CLASSIFICATION_TYPE@ {
        CategoryKind::Classification
    } else if tag == PRODUCT_TYPE@ {
        CategoryKind::Product
    } else {
        CategoryKind::Other
    }
}

/// The label of a class. The five known classes have fixed labels; any
/// other goes by the name that the catalog gave it.
pub open spec fn label_of(class: Classification, name: Seq<char>) -> Seq<char> {
    match class {
        Classification::Critical => "Critical Updates"@,
        Classification::Security => "Security Updates"@,
        Classification::Definition => "Definition Updates"@,
        Classification::Feature => "Feature Packs"@,
        Classification::Driver => "Drivers"@,
        Classification::Other => name,
    }
}

/// Tells whether a text equals a literal.
fn is_text(text: &String, literal: &str) -> (same: bool)
    ensures
        same == (text@ == literal@),
{
    *text == literal.to_string()
}

/// Resolves a category identifier against the table of known classes.
pub fn classify(id: &String) -> (class: Classification)
    ensures
        class == class_of(id@),
{
    if is_text(id, CRITICAL_UPDATES_GUID) {
        Classification::Critical
    } else if is_text(id, SECURITY_UPDATES_GUID) {
        Classification::Security
    } else if is_text(id, DEFINITION_UPDATES_GUID) {
        Classification::Definition
    } else if is_text(id, FEATURE_UPDATES_GUID) {
        Classification::Feature
    } else if is_text(id, DRIVER_UPDATES_GUID) {
        Classification::Driver
    } else {
        Classification::Other
    }
}

/// Reads a category type tag.
pub fn category_kind(tag: &String) -> (kind: CategoryKind)
    ensures
        kind == kind_of(tag@),
{
    if is_text(tag, CLASSIFICATION_TYPE) {
        CategoryKind::Classification
    } else if is_text(tag, PRODUCT_TYPE) {
        CategoryKind::Product
    } else {
        CategoryKind::Other
    }
}

/// The label under which updates of a class are reported.
pub fn class_label(class: Classification, name: String) -> (label: String)
    ensures
        label@ == label_of(class, name@),
{
    match class {
        Classification::Critical => "Critical Updates".to_string(),
        Classification::Security => "Security Updates".to_string(),
        Classification::Definition => "Definition Updates".to_string(),
        Classification::Feature => "Feature Packs".to_string(),
        Classification::Driver => "Drivers".to_string(),
        Classification::Other => name,
    }
}

/// One more, unless the count is at its ceiling.
pub open spec fn bumped(count: i32) -> i32 {
    if count < i32::MAX {
        (count + 1) as i32
    } else {
        count
    }
}

fn bump(count: i32) -> (next: i32)
    ensures
        next == bumped(count),
{
    if count < i32::MAX {
        count + 1
    } else {
        count
    }
}

impl ClassCounts {
    /// No update counted yet.
    pub open spec fn zero() -> ClassCounts {
        ClassCounts {
            critical_count: 0,
            security_count: 0,
            definition_count: 0,
            feature_count: 0,
            driver_count: 0,
            other_count: 0,
        }
    }

    /// No update counted yet.
    pub fn new() -> (counts: ClassCounts)
        ensures
            counts == ClassCounts::zero(),
    {
        ClassCounts {
            critical_count: 0,
            security_count: 0,
            definition_count: 0,
            feature_count: 0,
            driver_count: 0,
            other_count: 0,
        }
    }

    /// The counts with one more update of `class`.
    pub open spec fn with(self, class: Classification) -> ClassCounts {
        match class {
            Classification::Critical => ClassCounts {
                critical_count: bumped(self.critical_count),
                ..self
            },
            Classification::Security => ClassCounts {
                security_count: bumped(self.security_count),
                ..self
            },
            Classification::Definition => ClassCounts {
                definition_count: bumped(self.definition_count),
                ..self
            },
            Classification::Feature => ClassCounts {
                feature_count: bumped(self.feature_count),
                ..self
            },
            Classification::Driver => ClassCounts {
                driver_count: bumped(self.driver_count),
                ..self
            },
            Classification::Other => ClassCounts { other_count: bumped(self.other_count), ..self },
        }
    }

    /// Counts one more update of `class`.
    pub fn count(&mut self, class: Classification)
        ensures
            *final(self) == old(self).with(class),
    {
        match class {
            Classification::Critical => {
                self.critical_count = bump(self.critical_count);
            },
            Classification::Security => {
                self.security_count = bump(self.security_count);
            },
            Classification::Definition => {
                self.definition_count = bump(self.definition_count);
            },
            Classification::Feature => {
                self.feature_count = bump(self.feature_count);
            },
            Classification::Driver => {
                self.driver_count = bump(self.driver_count);
            },
            Classification::Other => {
                self.other_count = bump(self.other_count);
            },
        }
    }
}

/// What is known of the update that is being read.
#[derive(Debug)]
struct Draft {
    title: String,
    min_bytes: u128,
    max_bytes: u128,
    classification: Option<String>,
    product: Option<String>,
    /// Name of the classifying category whose identifier is being read.
    name: String,
    /// What the category that is being read is about.
    kind: CategoryKind,
}

/// What is known of the update that is being read, as a mathematical value.
pub struct DraftView {
    pub title: Seq<char>,
    pub min_bytes: u128,
    pub max_bytes: u128,
    pub classification: Option<Seq<char>>,
    pub product: Option<Seq<char>>,
    pub name: Seq<char>,
    pub kind: CategoryKind,
}

impl View for Draft {
    type V = DraftView;

    closed spec fn view(&self) -> DraftView {
        DraftView {
            title: self.title@,
            min_bytes: self.min_bytes,
            max_bytes: self.max_bytes,
            classification: match self.classification {
                Some(label) => Some(label@),
                None => None,
            },
            product: match self.product {
                Some(product) => Some(product@),
                None => None,
            },
            name: self.name@,
            kind: self.kind,
        }
    }
}

impl DraftView {
    /// The draft of an update of which nothing has been read yet.
    pub open spec fn blank() -> DraftView {
        DraftView {
            title: Seq::empty(),
            min_bytes: 0,
            max_bytes: 0,
            classification: None,
            product: None,
            name: Seq::empty(),
            kind: CategoryKind::Other,
        }
    }

    /// The list with the update that the draft and its description make, if
    /// the draft has both a classification and a product; else the list as
    /// it is.
    pub open spec fn listed(self, description: Seq<char>, list: Seq<UpdateView>) -> Seq<
        UpdateView,
    > {
        match (self.classification, self.product) {
            (Some(classification), Some(product)) => list.push(
                UpdateView {
                    title: self.title,
                    classification,
                    min_bytes: self.min_bytes,
                    max_bytes: self.max_bytes,
                    product,
                    description,
                },
            ),
            _ => list,
        }
    }
}

impl Draft {
    fn blank() -> (draft: Draft)
        ensures
            draft@ == DraftView::blank(),
    {
        Draft {
            title: String::new(),
            min_bytes: 0,
            max_bytes: 0,
            classification: None,
            product: None,
            name: String::new(),
            kind: CategoryKind::Other,
        }
    }
}

/// An update search in progress.
#[derive(Debug)]
pub struct UpdateScan {
    ledger: Ledger,
    /// Number of updates that the search returned.
    total: i32,
    /// Index of the update that is being read.
    index: u32,
    /// Number of categories of that update.
    categories: i32,
    /// Index of the category that is being read.
    category: u32,
    draft: Draft,
    counts: ClassCounts,
    updates: Vec<UpdateInfo>,
}

/// Mathematical model of an [`UpdateScan`].
pub struct UpdateScanView {
    pub ledger: LedgerView,
    pub total: i32,
    pub index: u32,
    pub categories: i32,
    pub category: u32,
    pub draft: DraftView,
    pub counts: ClassCounts,
    pub updates: Seq<UpdateView>,
}

impl View for UpdateScan {
    type V = UpdateScanView;

    closed spec fn view(&self) -> UpdateScanView {
        UpdateScanView {
            ledger: self.ledger@,
            total: self.total,
            index: self.index,
            categories: self.categories,
            category: self.category,
            draft: self.draft@,
            counts: self.counts,
            updates: update_views(self.updates@),
        }
    }
}

/// What the collector asks for once `resource` has been granted, if the
/// resource is one it ever asks for.
pub open spec fn descend(resource: Resource) -> Option<Action> {
    match resource {
        Resource::Session => Some(Action::Acquire(Resource::UpdateSession)),
        Resource::UpdateSession => Some(Action::Acquire(Resource::Searcher)),
        Resource::Searcher => Some(Action::Acquire(Resource::SearchResult)),
        Resource::SearchResult => Some(Action::Acquire(Resource::Updates)),
        Resource::Updates => Some(Action::Read(Field::UpdateCount)),
        Resource::Update => Some(Action::Read(Field::DownloadSize(Bound::Min))),
        Resource::Categories => Some(Action::Read(Field::CategoryCount)),
        Resource::Category => Some(Action::Read(Field::Text(UpdateText::CategoryType))),
        _ => None,
    }
}

/// Exec counterpart of [`descend`].
fn way_down(resource: Resource) -> (action: Option<Action>)
    ensures
        action == descend(resource),
{
    match resource {
        Resource::Session => Some(Action::Acquire(Resource::UpdateSession)),
        Resource::UpdateSession => Some(Action::Acquire(Resource::Searcher)),
        Resource::Searcher => Some(Action::Acquire(Resource::SearchResult)),
        Resource::SearchResult => Some(Action::Acquire(Resource::Updates)),
        Resource::Updates => Some(Action::Read(Field::UpdateCount)),
        Resource::Update => Some(Action::Read(Field::DownloadSize(Bound::Min))),
        Resource::Categories => Some(Action::Read(Field::CategoryCount)),
        Resource::Category => Some(Action::Read(Field::Text(UpdateText::CategoryType))),
        _ => None,
    }
}

impl UpdateScanView {
    /// The scan before the first answer: the session is to be opened, or, on
    /// a host that cannot be scanned, the scan is over at once.
    pub open spec fn begin(platform: Platform) -> UpdateScanView {
        UpdateScanView {
            ledger: if platform == Platform::Windows {
                LedgerView::begin(Action::Acquire(Resource::Session))
            } else {
                LedgerView::refuse(ScanError::NotWindows)
            },
            total: 0,
            index: 0,
            categories: 0,
            category: 0,
            draft: DraftView::blank(),
            counts: ClassCounts::zero(),
            updates: Seq::empty(),
        }
    }

    /// The scan with another ledger.
    pub open spec fn with_ledger(self, ledger: LedgerView) -> UpdateScanView {
        UpdateScanView { ledger, ..self }
    }

    /// The scan that answers `event` by failing.
    pub open spec fn failed(self, event: Event) -> UpdateScanView {
        self.with_ledger(self.ledger.absorb(event).fail(refusal(self.ledger.pending, event)))
    }

    /// The scan that turns to the update at index `next`, or winds down where
    /// the search returned no such update.
    pub open spec fn to_update(self, next: int) -> UpdateScanView {
        if next < self.total {
            UpdateScanView {
                ledger: self.ledger.request(Action::AcquireItem(Resource::Update, next as u32)),
                index: next as u32,
                ..self
            }
        } else {
            self.with_ledger(self.ledger.close())
        }
    }

    /// The scan that turns to the category at index `next` of the update
    /// being read, or to the update's description where it has no such
    /// category.
    pub open spec fn to_category(self, next: int) -> UpdateScanView {
        if next < self.categories {
            UpdateScanView {
                ledger: self.ledger.request(Action::AcquireItem(Resource::Category, next as u32)),
                category: next as u32,
                ..self
            }
        } else {
            self.with_ledger(
                self.ledger.request(Action::Read(Field::Text(UpdateText::Description))),
            )
        }
    }

    /// The answer to an acquisition: once granted, the scan goes one level
    /// further down, and a new update starts from a blank draft.
    pub open spec fn on_grant(self, resource: Resource, event: Event) -> UpdateScanView {
        match (grants(self.ledger.pending, event), descend(resource)) {
            (Some(_), Some(action)) => UpdateScanView {
                ledger: self.ledger.absorb(event).request(action),
                draft: if resource == Resource::Update {
                    DraftView::blank()
                } else {
                    self.draft
                },
                ..self
            },
            _ => self.failed(event),
        }
    }

    /// The answer to the read of a count: the number of updates that the
    /// search returned, or the number of categories of the update being
    /// read. Either way the scan turns to the first of them.
    pub open spec fn on_count(self, field: Field, event: Event) -> UpdateScanView {
        let ledger = self.ledger.absorb(event);
        match event {
            Event::Count(count) => if field == Field::UpdateCount {
                UpdateScanView { ledger, total: count, ..self }.to_update(0)
            } else {
                UpdateScanView { ledger, categories: count, ..self }.to_category(0)
            },
            _ => self.failed(event),
        }
    }

    /// The answer to the read of a size estimate: the two halves of the
    /// packed decimal are joined, and the title is read once both estimates
    /// are in.
    pub open spec fn on_size(self, bound: Bound, event: Event) -> UpdateScanView {
        let ledger = self.ledger.absorb(event);
        match event {
            Event::Decimal(hi32, lo64) => match bound {
                Bound::Min => UpdateScanView {
                    ledger: ledger.request(Action::Read(Field::DownloadSize(Bound::Max))),
                    draft: DraftView { min_bytes: decimal_value(hi32, lo64) as u128, ..self.draft },
                    ..self
                },
                Bound::Max => UpdateScanView {
                    ledger: ledger.request(Action::Read(Field::Text(UpdateText::Title))),
                    draft: DraftView { max_bytes: decimal_value(hi32, lo64) as u128, ..self.draft },
                    ..self
                },
            },
            _ => self.failed(event),
        }
    }

    /// The answer to the read of a text.
    ///
    /// After the title the category list is asked for. A category's type
    /// decides what else is read of it: name and identifier of a
    /// classifying category, the name of a product category, nothing of any
    /// other. The identifier of a classifying category is resolved against
    /// the table of known classes, counted, and its label becomes the
    /// update's classification. The description completes the update: it
    /// joins the list if it has a classification and a product.
    pub open spec fn on_text(self, which: UpdateText, event: Event) -> UpdateScanView {
        let ledger = self.ledger.absorb(event);
        match event {
            Event::Text(text) => match which {
                UpdateText::Title => UpdateScanView {
                    ledger: ledger.request(Action::Acquire(Resource::Categories)),
                    draft: DraftView { title: text@, ..self.draft },
                    ..self
                },
                UpdateText::CategoryType => UpdateScanView {
                    ledger: if kind_of(text@) == CategoryKind::Other {
                        ledger.release_next()
                    } else {
                        ledger.request(Action::Read(Field::Text(UpdateText::CategoryName)))
                    },
                    draft: DraftView { kind: kind_of(text@), ..self.draft },
                    ..self
                },
                UpdateText::CategoryName => match self.draft.kind {
                    CategoryKind::Classification => UpdateScanView {
                        ledger: ledger.request(Action::Read(Field::Text(UpdateText::CategoryId))),
                        draft: DraftView { name: text@, ..self.draft },
                        ..self
                    },
                    CategoryKind::Product => UpdateScanView {
                        ledger: ledger.release_next(),
                        draft: DraftView { product: Some(text@), ..self.draft },
                        ..self
                    },
                    CategoryKind::Other => self.with_ledger(ledger.release_next()),
                },
                UpdateText::CategoryId => UpdateScanView {
                    ledger: ledger.release_next(),
                    draft: DraftView {
                        classification: Some(label_of(class_of(text@), self.draft.name)),
                        ..self.draft
                    },
                    counts: self.counts.with(class_of(text@)),
                    ..self
                },
                UpdateText::Description => UpdateScanView {
                    ledger: ledger.release_next(),
                    updates: self.draft.listed(text@, self.updates),
                    ..self
                },
            },
            _ => self.failed(event),
        }
    }

    /// The answer to a release on the way through the updates: after a
    /// category the next one is asked for, after the category list the
    /// update is given back, after the update the next one is asked for.
    pub open spec fn on_release(self, resource: Resource, event: Event) -> UpdateScanView {
        let here = self.with_ledger(self.ledger.absorb(event));
        match event {
            Event::Released => match resource {
                Resource::Category => here.to_category(self.category + 1),
                Resource::Categories => here.with_ledger(here.ledger.release_next()),
                Resource::Update => here.to_update(self.index + 1),
                _ => self.failed(event),
            },
            _ => self.failed(event),
        }
    }

    /// The scan after the caller has answered the pending action with `event`.
    ///
    /// While winding down, every answer leads to the next release. Otherwise
    /// the pending action decides how the answer is read; an answer that the
    /// action cannot have fails the scan.
    pub open spec fn next(self, event: Event) -> UpdateScanView {
        if self.ledger.closing {
            self.with_ledger(self.ledger.absorb(event).release_next())
        } else {
            match self.ledger.pending {
                Action::Acquire(resource) => self.on_grant(resource, event),
                Action::AcquireItem(resource, _) => self.on_grant(resource, event),
                Action::Read(Field::UpdateCount) => self.on_count(Field::UpdateCount, event),
                Action::Read(Field::CategoryCount) => self.on_count(Field::CategoryCount, event),
                Action::Read(Field::DownloadSize(bound)) => self.on_size(bound, event),
                Action::Read(Field::Text(which)) => self.on_text(which, event),
                Action::Release(resource) => self.on_release(resource, event),
                _ => self.failed(event),
            }
        }
    }

    /// The scan after the caller has given all of `events`, in order.
    pub open spec fn after(self, events: Seq<Event>) -> UpdateScanView
        decreases events.len(),
    {
        if events.len() == 0 {
            self
        } else {
            self.after(events.drop_last()).next(events.last())
        }
    }

    /// The ledgers the scan goes through while it is given `events`.
    pub open spec fn ledgers(self, events: Seq<Event>) -> Seq<LedgerView> {
        Seq::new((events.len() + 1) as nat, |i: int| self.after(events.take(i)).ledger)
    }

    /// What the scan returns: the first failure if there was one, the
    /// summary if the scan is over, and a protocol error for a scan that is
    /// still under way.
    pub open spec fn outcome(self) -> Result<SummaryView, ScanError> {
        match self.ledger.failure {
            Some(error) => Err(error),
            None => if self.ledger.finished() {
                Ok(
                    SummaryView {
                        total_count: self.total,
                        counts: self.counts,
                        update_list: self.updates,
                        query: SEARCH_CRITERIA@,
                    },
                )
            } else {
                Err(ScanError::Protocol(self.ledger.pending))
            },
        }
    }
}

/// Model of what the collector returns.
pub open spec fn summary_view(r: Result<UpdateSummary, ScanError>) -> Result<
    SummaryView,
    ScanError,
> {
    match r {
        Ok(summary) => Ok(summary@),
        Err(error) => Err(error),
    }
}

impl UpdateScan {
    /// The action that the caller has to answer next.
    pub fn pending(&self) -> (action: Action)
        ensures
            action == self@.ledger.pending,
    {
        self.ledger.pending()
    }

    /// The bookkeeping of the scan.
    pub fn ledger(&self) -> (ledger: &Ledger)
        ensures
            ledger@ == self@.ledger,
    {
        &self.ledger
    }

    /// Turns to the update at `next`: the move that asks for it, or that
    /// winds down where the search returned no such update.
    fn turn_to_update(&mut self, next: u32) -> (step: Move)
        ensures
            next < old(self)@.total ==> step == Move::Ask(
                Action::AcquireItem(Resource::Update, next),
            ) && final(self)@ == (UpdateScanView { index: next, ..old(self)@ }),
            next >= old(self)@.total ==> step == Move::WindDown && final(self)@ == old(self)@,
    {
        if (next as i64) < (self.total as i64) {
            self.index = next;
            Move::Ask(Action::AcquireItem(Resource::Update, next))
        } else {
            Move::WindDown
        }
    }

    /// Turns to the category at `next` of the update being read: the move
    /// that asks for it, or for the description where the update has no
    /// such category.
    fn turn_to_category(&mut self, next: u32) -> (step: Move)
        ensures
            next < old(self)@.categories ==> step == Move::Ask(
                Action::AcquireItem(Resource::Category, next),
            ) && final(self)@ == (UpdateScanView { category: next, ..old(self)@ }),
            next >= old(self)@.categories ==> step == Move::Ask(
                Action::Read(Field::Text(UpdateText::Description)),
            ) && final(self)@ == old(self)@,
    {
        if (next as i64) < (self.categories as i64) {
            self.category = next;
            Move::Ask(Action::AcquireItem(Resource::Category, next))
        } else {
            Move::Ask(Action::Read(Field::Text(UpdateText::Description)))
        }
    }

    fn start_draft(&mut self)
        ensures
            final(self)@ == (UpdateScanView { draft: DraftView::blank(), ..old(self)@ }),
    {
        self.draft = Draft::blank();
    }

    fn step_grant(&mut self, resource: Resource, event: Event) -> (action: Action)
        ensures
            final(self)@ == old(self)@.on_grant(resource, event),
            action == final(self)@.ledger.pending,
    {
        let grant = granted(self.ledger.pending(), &event);
        let down = way_down(resource);
        match (grant, down) {
            (Some(_), Some(next)) => {
                match resource {
                    Resource::Update => self.start_draft(),
                    _ => {},
                }
                self.ledger.make(&event, Move::Ask(next))
            },
            _ => self.ledger.make(&event, Move::Fail),
        }
    }

    fn note_total(&mut self, count: i32)
        ensures
            final(self)@ == (UpdateScanView { total: count, ..old(self)@ }),
    {
        self.total = count;
    }

    fn note_categories(&mut self, count: i32)
        ensures
            final(self)@ == (UpdateScanView { categories: count, ..old(self)@ }),
    {
        self.categories = count;
    }

    fn step_count(&mut self, field: Field, event: Event) -> (action: Action)
        requires
            field == Field::UpdateCount || field == Field::CategoryCount,
        ensures
            final(self)@ == old(self)@.on_count(field, event),
            action == final(self)@.ledger.pending,
    {
        match &event {
            Event::Count(count) => {
                let step = match field {
                    Field::UpdateCount => {
                        self.note_total(*count);
                        self.turn_to_update(0)
                    },
                    _ => {
                        self.note_categories(*count);
                        self.turn_to_category(0)
                    },
                };
                self.ledger.make(&event, step)
            },
            _ => self.ledger.make(&event, Move::Fail),
        }
    }

    fn note_size(&mut self, bound: Bound, bytes: u128)
        ensures
            final(self)@ == (UpdateScanView {
                draft: match bound {
                    Bound::Min => DraftView { min_bytes: bytes, ..old(self)@.draft },
                    Bound::Max => DraftView { max_bytes: bytes, ..old(self)@.draft },
                },
                ..old(self)@
            }),
    {
        match bound {
            Bound::Min => {
                self.draft.min_bytes = bytes;
            },
            Bound::Max => {
                self.draft.max_bytes = bytes;
            },
        }
    }

    fn step_size(&mut self, bound: Bound, event: Event) -> (action: Action)
        ensures
            final(self)@ == old(self)@.on_size(bound, event),
            action == final(self)@.ledger.pending,
    {
        match &event {
            Event::Decimal(hi32, lo64) => {
                self.note_size(bound, decimal_to_u128(*hi32, *lo64));
                let next = match bound {
                    Bound::Min => Action::Read(Field::DownloadSize(Bound::Max)),
                    Bound::Max => Action::Read(Field::Text(UpdateText::Title)),
                };
                self.ledger.make(&event, Move::Ask(next))
            },
            _ => self.ledger.make(&event, Move::Fail),
        }
    }

    fn note_title(&mut self, text: &String)
        ensures
            final(self)@ == (UpdateScanView {
                draft: DraftView { title: text@, ..old(self)@.draft },
                ..old(self)@
            }),
    {
        self.draft.title = text.clone();
    }

    fn note_kind(&mut self, tag: &String) -> (kind: CategoryKind)
        ensures
            kind == kind_of(tag@),
            final(self)@ == (UpdateScanView {
                draft: DraftView { kind: kind_of(tag@), ..old(self)@.draft },
                ..old(self)@
            }),
    {
        let kind = category_kind(tag);
        self.draft.kind = kind;
        kind
    }

    fn note_name(&mut self, text: &String)
        ensures
            final(self)@ == (UpdateScanView {
                draft: DraftView { name: text@, ..old(self)@.draft },
                ..old(self)@
            }),
    {
        self.draft.name = text.clone();
    }

    fn note_product(&mut self, text: &String)
        ensures
            final(self)@ == (UpdateScanView {
                draft: DraftView { product: Some(text@), ..old(self)@.draft },
                ..old(self)@
            }),
    {
        self.draft.product = Some(text.clone());
    }

    fn note_class(&mut self, id: &String)
        ensures
            final(self)@ == (UpdateScanView {
                draft: DraftView {
                    classification: Some(label_of(class_of(id@), old(self)@.draft.name)),
                    ..old(self)@.draft
                },
                counts: old(self)@.counts.with(class_of(id@)),
                ..old(self)@
            }),
    {
        let class = classify(id);
        self.counts.count(class);
        self.draft.classification = Some(class_label(class, self.draft.name.clone()));
    }

    fn complete(&mut self, description: &String)
        ensures
            final(self)@ == (UpdateScanView {
                updates: old(self)@.draft.listed(description@, old(self)@.updates),
                ..old(self)@
            }),
    {
        match (&self.draft.classification, &self.draft.product) {
            (Some(classification), Some(product)) => {
                let update = UpdateInfo {
                    title: self.draft.title.clone(),
                    classification: classification.clone(),
                    min_bytes: self.draft.min_bytes,
                    max_bytes: self.draft.max_bytes,
                    product: product.clone(),
                    description: description.clone(),
                };
                proof {
                    assert(update_views(self.updates@.push(update)) =~= update_views(
                        self.updates@,
                    ).push(update@));
                }
                self.updates.push(update);
            },
            _ => {},
        }
    }

    fn step_category_text(&mut self, which: UpdateText, text: &String) -> (step: Move)
        requires
            which != UpdateText::Title,
            which != UpdateText::Description,
        ensures
            final(self)@.ledger == old(self)@.ledger,
            final(self)@.with_ledger(old(self)@.ledger.moved(Event::Text(*text), step)) == old(
                self,
            )@.on_text(which, Event::Text(*text)),
    {
        match which {
            UpdateText::CategoryType => {
                match self.note_kind(text) {
                    CategoryKind::Other => Move::GiveBack,
                    _ => Move::Ask(Action::Read(Field::Text(UpdateText::CategoryName))),
                }
            },
            UpdateText::CategoryName => match self.draft.kind {
                CategoryKind::Classification => {
                    self.note_name(text);
                    Move::Ask(Action::Read(Field::Text(UpdateText::CategoryId)))
                },
                CategoryKind::Product => {
                    self.note_product(text);
                    Move::GiveBack
                },
                CategoryKind::Other => Move::GiveBack,
            },
            _ => {
                self.note_class(text);
                Move::GiveBack
            },
        }
    }

    fn step_text(&mut self, which: UpdateText, event: Event) -> (action: Action)
        ensures
            final(self)@ == old(self)@.on_text(which, event),
            action == final(self)@.ledger.pending,
    {
        match &event {
            Event::Text(text) => {
                let step = match which {
                    UpdateText::Title => {
                        self.note_title(text);
                        Move::Ask(Action::Acquire(Resource::Categories))
                    },
                    UpdateText::Description => {
                        self.complete(text);
                        Move::GiveBack
                    },
                    _ => self.step_category_text(which, text),
                };
                self.ledger.make(&event, step)
            },
            _ => self.ledger.make(&event, Move::Fail),
        }
    }

    fn step_release(&mut self, resource: Resource, event: Event) -> (action: Action)
        ensures
            final(self)@ == old(self)@.on_release(resource, event),
            action == final(self)@.ledger.pending,
    {
        let step = match &event {
            Event::Released => match resource {
                Resource::Category => {
                    if (self.category as i64) < (self.categories as i64) {
                        self.turn_to_category(self.category + 1)
                    } else {
                        Move::Ask(Action::Read(Field::Text(UpdateText::Description)))
                    }
                },
                Resource::Categories => Move::GiveBack,
                Resource::Update => {
                    if (self.index as i64) < (self.total as i64) {
                        self.turn_to_update(self.index + 1)
                    } else {
                        Move::WindDown
                    }
                },
                _ => Move::Fail,
            },
            _ => Move::Fail,
        };
        self.ledger.make(&event, step)
    }

    /// Takes the caller's answer to the pending action and says what to do
    /// next.
    pub fn step(&mut self, event: Event) -> (action: Action)
        ensures
            final(self)@ == old(self)@.next(event),
            action == final(self)@.ledger.pending,
    {
        if self.ledger.is_closing() {
            return self.ledger.make(&event, Move::GiveBack);
        }
        match self.ledger.pending() {
            Action::Acquire(resource) => self.step_grant(resource, event),
            Action::AcquireItem(resource, _) => self.step_grant(resource, event),
            Action::Read(Field::UpdateCount) => self.step_count(Field::UpdateCount, event),
            Action::Read(Field::CategoryCount) => self.step_count(Field::CategoryCount, event),
            Action::Read(Field::DownloadSize(bound)) => self.step_size(bound, event),
            Action::Read(Field::Text(which)) => self.step_text(which, event),
            Action::Release(resource) => self.step_release(resource, event),
            _ => self.ledger.make(&event, Move::Fail),
        }
    }

    /// Ends the scan and hands out the summary of the pending updates.
    pub fn finish(self) -> (r: Result<UpdateSummary, ScanError>)
        ensures
            summary_view(r) == self@.outcome(),
    {
        match self.ledger.failure() {
            Some(error) => Err(error),
            None => match self.ledger.pending() {
                Action::Finish => Ok(
                    UpdateSummary {
                        total_count: self.total,
                        critical_count: self.counts.critical_count,
                        security_count: self.counts.security_count,
                        definition_count: self.counts.definition_count,
                        feature_count: self.counts.feature_count,
                        driver_count: self.counts.driver_count,
                        other_count: self.counts.other_count,
                        update_list: self.updates,
                        query: SEARCH_CRITERIA.to_string(),
                    },
                ),
                pending => Err(ScanError::Protocol(pending)),
            },
        }
    }
}

/// Begins a search for pending updates. The scan asks for the session
/// first; on a host other than Windows it is over at once with
/// [`ScanError::NotWindows`] and asks for nothing.
pub fn scan_updates(platform: Platform) -> (scan: UpdateScan)
    ensures
        scan@ == UpdateScanView::begin(platform),
{
    let ledger = match platform {
        Platform::Windows => Ledger::begin(Action::Acquire(Resource::Session)),
        Platform::Other => Ledger::refuse(ScanError::NotWindows),
    };
    let scan = UpdateScan {
        ledger,
        total: 0,
        index: 0,
        categories: 0,
        category: 0,
        draft: Draft::blank(),
        counts: ClassCounts::new(),
        updates: Vec::new(),
    };
    assert(update_views(scan.updates@) =~= Seq::empty());
    scan
}

/// Every step of a scan is honest bookkeeping, and none asks for the session
/// again.
pub proof fn lemma_step_follows(scan: UpdateScanView, event: Event)
    ensures
        follows(scan.ledger, event, scan.next(event).ledger),
        !scan.next(event).ledger.pending.asks_for_session(),
{
}

/// The ledgers of a scan form a run, whatever the caller answers.
pub proof fn lemma_scan_is_run(platform: Platform, events: Seq<Event>)
    ensures
        is_run(UpdateScanView::begin(platform).ledgers(events), events),
{
    let start = UpdateScanView::begin(platform);
    let ledgers = start.ledgers(events);
    assert(events.take(0) =~= Seq::empty());
    assert forall|i: int| 0 <= i < events.len() implies follows(
        #[trigger] ledgers[i],
        events[i],
        ledgers[i + 1],
    ) by {
        let before = start.after(events.take(i));
        assert(events.take(i + 1).drop_last() =~= events.take(i));
        assert(events.take(i + 1).last() == events[i]);
        lemma_step_follows(before, events[i]);
    }
}

/// A scan that has come to its end has released every resource that it
/// acquired, whether it succeeded or failed and whatever the caller answered
/// on the way.
pub proof fn lemma_finished_scan_is_balanced(platform: Platform, events: Seq<Event>)
    requires
        UpdateScanView::begin(platform).after(events).ledger.finished(),
    ensures
        acquisitions(UpdateScanView::begin(platform).ledgers(events), events, events.len())
            == releases(UpdateScanView::begin(platform).ledgers(events), events.len()),
{
    lemma_scan_is_run(platform, events);
    assert(events.take(events.len() as int) =~= events);
    lemma_finished_run_is_balanced(UpdateScanView::begin(platform).ledgers(events), events);
}

/// The bookkeeping of a scan stays orderly, whatever the caller answers.
pub proof fn lemma_scan_is_orderly(platform: Platform, events: Seq<Event>)
    ensures
        UpdateScanView::begin(platform).after(events).ledger.orderly(),
    decreases events.len(),
{
    let start = UpdateScanView::begin(platform);
    if events.len() > 0 {
        lemma_scan_is_orderly(platform, events.drop_last());
        let before = start.after(events.drop_last());
        lemma_step_follows(before, events.last());
        lemma_orderly_step(before.ledger, events.last(), before.next(events.last()).ledger);
    }
}

/// When a scan asks for the session to be closed, it holds nothing else:
/// every object obtained inside the session has been released before.
pub proof fn lemma_scan_closes_session_last(platform: Platform, events: Seq<Event>)
    requires
        UpdateScanView::begin(platform).after(events).ledger.pending == Action::Release(
            Resource::Session,
        ),
    ensures
        UpdateScanView::begin(platform).after(events).ledger.held.len() == 0,
{
    let start = UpdateScanView::begin(platform);
    if events.len() > 0 {
        lemma_scan_is_orderly(platform, events.drop_last());
        let before = start.after(events.drop_last());
        lemma_step_follows(before, events.last());
        lemma_session_is_closed_last(
            before.ledger,
            events.last(),
            before.next(events.last()).ledger,
        );
    }
}

/// The search result's count is what the summary reports as the total,
/// whether or not every update makes it into the list: no later answer
/// changes it.
pub proof fn lemma_total_is_what_was_counted(scan: UpdateScanView, event: Event)
    requires
        !(scan.ledger.pending == Action::Read(Field::UpdateCount) && !scan.ledger.closing),
    ensures
        scan.next(event).total == scan.total,
{
}

/// True when the update is reported under `label`.
pub fn listed_under(update: &UpdateInfo, label: &str) -> (yes: bool)
    ensures
        yes == (update@.classification == label@),
{
    is_text(&update.classification, label)
}

/// True for the labels of the five known classes.
pub open spec fn is_fixed_label(label: Seq<char>) -> bool {
    ||| label == "Critical Updates"@
    ||| label == "Security Updates"@
    ||| label == "Definition Updates"@
    ||| label == "Feature Packs"@
    ||| label == "Drivers"@
}

/// True when the update is reported under none of the five fixed labels.
pub fn listed_as_other(update: &UpdateInfo) -> (yes: bool)
    ensures
        yes == !is_fixed_label(update@.classification),
{
    !(listed_under(update, "Critical Updates") || listed_under(update, "Security Updates")
        || listed_under(update, "Definition Updates") || listed_under(update, "Feature Packs")
        || listed_under(update, "Drivers"))
}

/// The label of a known class is one of the five fixed labels, whatever
/// name the catalog gave the class.
pub proof fn lemma_known_classes_have_fixed_labels(class: Classification, name: Seq<char>)
    requires
        class != Classification::Other,
    ensures
        is_fixed_label(label_of(class, name)),
{
}

/// The lower-case form of a letter of the basic Latin alphabet; any other
/// character as it is.
pub open spec fn folded(c: char) -> int {
    if 'A' <= c <= 'Z' {
        c as int + 32
    } else {
        c as int
    }
}

/// True when `needle` stands in `text` at position `at`, the case of basic
/// Latin letters in `text` ignored.
pub open spec fn occurs_at(text: Seq<char>, needle: Seq<char>, at: int) -> bool {
    &&& 0 <= at
    &&& at + needle.len() <= text.len()
    &&& forall|j: int| 0 <= j < needle.len() ==> folded(#[trigger] text[at + j]) == needle[j] as int
}

/// True when `needle` stands somewhere in `text`, case ignored.
pub open spec fn occurs(text: Seq<char>, needle: Seq<char>) -> bool {
    exists|at: int| occurs_at(text, needle, at)
}

fn fold(c: char) -> (code: u32)
    ensures
        code == folded(c),
{
    let code = c as u32;
    if 65 <= code && code <= 90 {
        code + 32
    } else {
        code
    }
}

fn found_at(text: &str, needle: &str, at: usize, length: usize, width: usize) -> (yes: bool)
    requires
        length == text@.len(),
        width == needle@.len(),
        at + width <= length,
    ensures
        yes == occurs_at(text@, needle@, at as int),
{
    let mut j: usize = 0;
    while j < width
        invariant
            j <= width,
            length == text@.len(),
            width == needle@.len(),
            at + width <= length,
            forall|k: int| 0 <= k < j ==> folded(#[trigger] text@[at + k]) == needle@[k] as int,
        decreases width - j,
    {
        if fold(text.get_char(at + j)) != needle.get_char(j) as u32 {
            assert(folded(text@[at + j]) != needle@[j as int] as int);
            return false;
        }
        j = j + 1;
    }
    true
}

/// Searches `text` for `needle`, ignoring the case of basic Latin letters in
/// `text`. The needle is taken as it is.
pub fn contains_ignoring_case(text: &str, needle: &str) -> (yes: bool)
    ensures
        yes == occurs(text@, needle@),
{
    let length = text.unicode_len();
    let width = needle.unicode_len();
    if width > length {
        return false;
    }
    let last = length - width;
    let mut at: usize = 0;
    while at <= last
        invariant
            length == text@.len(),
            width == needle@.len(),
            last == length - width,
            at <= last + 1,
            forall|k: int| 0 <= k < at ==> !occurs_at(text@, needle@, k),
        decreases last + 1 - at,
    {
        if found_at(text, needle, at, length, width) {
            return true;
        }
        at = at + 1;
    }
    false
}

/// Tells from its title whether an update is a security update: the word
/// "security" stands in the title, in whatever case.
pub fn mentions_security(title: &str) -> (yes: bool)
    ensures
        yes == occurs(title@, "security"@),
{
    contains_ignoring_case(title, "security")
}

/// While it winds down, a scan does nothing but give back what it
/// holds: its ledger is the one that unwinding alone leads to, so the scan
/// is over after one answer per resource held and one more.
pub proof fn lemma_winding_down_is_unwinding(scan: UpdateScanView, events: Seq<Event>)
    requires
        scan.ledger.winding_down(),
    ensures
        scan.after(events).ledger == scan.ledger.unwound(events),
        events.len() > scan.ledger.held.len() ==> scan.after(events).ledger.finished(),
    decreases events.len(),
{
    lemma_winding_down(scan.ledger, events);
    if events.len() > 0 {
        lemma_winding_down_is_unwinding(scan, events.drop_last());
        lemma_winding_down(scan.ledger, events.drop_last());
    }
}

/// Whatever the caller answers, a scan that has begun to wind down
/// has told the caller so.
pub proof fn lemma_scan_is_coherent(platform: Platform, events: Seq<Event>)
    ensures
        UpdateScanView::begin(platform).after(events).ledger.coherent(),
    decreases events.len(),
{
    if events.len() > 0 {
        lemma_scan_is_coherent(platform, events.drop_last());
    }
}

/// The resources of a search in the order in which it acquires them.
pub open spec fn chain() -> Seq<Resource> {
    seq![
        Resource::Session,
        Resource::UpdateSession,
        Resource::Searcher,
        Resource::SearchResult,
        Resource::Updates,
        Resource::Update,
        Resource::Categories,
        Resource::Category,
    ]
}

/// How many links of the chain a search holds while it waits for the answer
/// to `pending`, for the actions that a search asks for before it winds
/// down.
pub open spec fn depth(pending: Action) -> Option<int> {
    match pending {
        Action::Acquire(Resource::Session) => Some(0),
        Action::Acquire(Resource::UpdateSession) => Some(1),
        Action::Acquire(Resource::Searcher) => Some(2),
        Action::Acquire(Resource::SearchResult) => Some(3),
        Action::Acquire(Resource::Updates) => Some(4),
        Action::Read(Field::UpdateCount) => Some(5),
        Action::AcquireItem(Resource::Update, _) => Some(5),
        Action::Release(Resource::Update) => Some(5),
        Action::Read(Field::DownloadSize(_)) => Some(6),
        Action::Read(Field::Text(UpdateText::Title)) => Some(6),
        Action::Acquire(Resource::Categories) => Some(6),
        Action::Release(Resource::Categories) => Some(6),
        Action::Read(Field::CategoryCount) => Some(7),
        Action::AcquireItem(Resource::Category, _) => Some(7),
        Action::Release(Resource::Category) => Some(7),
        Action::Read(Field::Text(UpdateText::Description)) => Some(7),
        Action::Read(Field::Text(_)) => Some(8),
        _ => None,
    }
}

impl UpdateScanView {
    /// What is held is a front part of the chain; a search that is not
    /// winding down holds exactly as much of it as its pending action works
    /// through, and asks for an item only at an index below the count that
    /// was reported; a search that is winding down has told the caller so.
    pub open spec fn shaped(self) -> bool {
        &&& self.ledger.held.len() <= chain().len()
        &&& self.ledger.held == chain().take(self.ledger.held.len() as int)
        &&& self.ledger.closing ==> self.ledger.winding_down()
        &&& !self.ledger.closing ==> {
            &&& depth(self.ledger.pending) == Some(self.ledger.held.len() as int)
            &&& self.ledger.pending matches Action::AcquireItem(Resource::Update, at) ==> at
                == self.index && at < self.total
            &&& self.ledger.pending matches Action::AcquireItem(Resource::Category, at) ==> at
                == self.category && at < self.categories
        }
    }
}

/// One answer leaves a search in shape.
pub proof fn lemma_step_keeps_shape(scan: UpdateScanView, event: Event)
    requires
        scan.shaped(),
    ensures
        scan.next(event).shaped(),
{
    reveal(grants);
    let links = chain();
    let held = scan.ledger.held;
    let after = scan.next(event).ledger.held;
    let grown = scan.ledger.absorb(event).held;
    if grown.len() > held.len() {
        assert(grown =~= links.take(held.len() as int + 1));
    }
    if after.len() < grown.len() {
        assert(grown.drop_last() =~= links.take(grown.len() - 1)) by {
            assert(grown =~= links.take(grown.len() as int));
        }
    }
    assert(after =~= links.take(after.len() as int));
}

/// Whatever the caller answers, a search stays in shape: it holds a front
/// part of its chain, so every object is obtained inside the session and
/// through the object acquired before it, every action is asked for only
/// while what it works through is held, and no item is asked for beyond
/// the end of its collection.
pub proof fn lemma_scan_is_shaped(platform: Platform, events: Seq<Event>)
    ensures
        UpdateScanView::begin(platform).after(events).shaped(),
    decreases events.len(),
{
    let start = UpdateScanView::begin(platform);
    if events.len() == 0 {
        assert(start.ledger.held =~= chain().take(0));
    } else {
        lemma_scan_is_shaped(platform, events.drop_last());
        lemma_step_keeps_shape(start.after(events.drop_last()), events.last());
    }
}

/// A search is over only once it has wound down: it never reports a result
/// while anything is left to ask for.
pub proof fn lemma_scan_finishes_by_winding_down(platform: Platform, events: Seq<Event>)
    requires
        UpdateScanView::begin(platform).after(events).ledger.finished(),
    ensures
        UpdateScanView::begin(platform).after(events).ledger.closing,
        UpdateScanView::begin(platform).after(events).ledger.held.len() == 0,
{
    lemma_scan_is_shaped(platform, events);
    if events.len() > 0 {
        let before = UpdateScanView::begin(platform).after(events.drop_last());
        lemma_step_follows(before, events.last());
    }
}

} // verus!
