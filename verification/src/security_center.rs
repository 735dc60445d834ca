//! The enumeration of registered security products, shared by the antivirus
//! and the firewall collector.
//!
//! Both open the session, connect to the security-center namespace, run one
//! projection query and fetch its rows one at a time until the enumerator
//! returns none. The firewall collector reads the profiles of the built-in
//! firewall through the policy interface before it connects.

use vstd::prelude::*;
use crate::antivirus::{
    product_of,
    product_views,
    ProductInfo,
    ProductView,
    ANTIVIRUS_QUERY,
    FIREWALL_QUERY,
    SECURITY_CENTER_NAMESPACE,
};
use crate::firewall::{
    after_reading,
    lemma_four_settings_make_a_profile,
    next_reading,
    read_setting,
    reading,
    FirewallProductInfo,
    ModuleInfo,
    WindowsFirewallProfile,
};
use crate::protocol::{
    acquisitions,
    follows,
    granted,
    grants,
    is_run,
    lemma_finished_run_is_balanced,
    lemma_orderly_step,
    lemma_session_is_closed_last,
    lemma_winding_down,
    refusal,
    releases,
    Action,
    Event,
    Field,
    Ledger,
    LedgerView,
    Move,
    Platform,
    Profile,
    Property,
    Resource,
    ScanError,
    Setting,
};
use crate::value::{integer_of, integer_property, string_of, string_property, PropertyValue};

verus! {

/// The class of products to enumerate.
#[derive(Clone, Copy, Debug, PartialEq, Eq, Structural)]
pub enum Family {
    Antivirus,
    Firewall,
}

/// A product enumeration in progress.
#[derive(Debug)]
pub struct ProductScan {
    family: Family,
    ledger: Ledger,
    profiles: WindowsFirewallProfile,
    /// Name of the product whose status code is being read.
    name: String,
    products: Vec<ProductInfo>,
}

/// Mathematical model of a [`ProductScan`].
pub struct ScanView {
    pub family: Family,
    pub ledger: LedgerView,
    pub profiles: WindowsFirewallProfile,
    pub name: Seq<char>,
    pub products: Seq<ProductView>,
}

impl View for ProductScan {
    type V = ScanView;

    closed spec fn view(&self) -> ScanView {
        ScanView {
            family: self.family,
            ledger: self.ledger@,
            profiles: self.profiles,
            name: self.name@,
            products: product_views(self.products@),
        }
    }
}

/// What the collector asks for once `resource` has been granted: the next
/// level on the way down to the rows. Only the firewall collector goes
/// through the policy interface.
pub open spec fn descend(family: Family, resource: Resource) -> Action {
    match resource {
        Resource::Session => if family == Family::Firewall {
            Action::Acquire(Resource::Policy)
        } else {
            Action::Acquire(Resource::Locator)
        },
        Resource::Policy => Action::Read(Field::Firewall(Profile::Public, Setting::Enabled)),
        Resource::Locator => Action::Acquire(Resource::Services),
        Resource::Services => Action::Acquire(Resource::Enumerator),
        _ => Action::Acquire(Resource::Object),
    }
}

impl ScanView {
    /// The scan before the first answer: the session is to be opened, or, on
    /// a host that cannot be scanned, the scan is over at once.
    pub open spec fn begin(family: Family, platform: Platform) -> ScanView {
        ScanView {
            family,
            ledger: if platform == Platform::Windows {
                LedgerView::begin(Action::Acquire(Resource::Session))
            } else {
                LedgerView::refuse(ScanError::NotWindows)
            },
            profiles: WindowsFirewallProfile::unread(),
            name: Seq::empty(),
            products: Seq::empty(),
        }
    }

    /// The scan with another ledger.
    pub open spec fn with_ledger(self, ledger: LedgerView) -> ScanView {
        ScanView { ledger, ..self }
    }

    /// The scan that answers `event` by failing: the error that the event
    /// stands for goes on record, and the scan winds down.
    pub open spec fn failed(self, event: Event) -> ScanView {
        self.with_ledger(
            self.ledger.absorb(event).fail(refusal(self.ledger.pending, event)),
        )
    }

    /// The answer to a request for the next row. An enumerator that returned
    /// nothing ends the scan; a row leads to the read of its name; rows
    /// announced without a row object are passed over.
    pub open spec fn on_row(self, event: Event) -> ScanView {
        let ledger = self.ledger.absorb(event);
        match event {
            Event::Fetched(returned, present) => if returned == 0 {
                self.with_ledger(ledger.close())
            } else if present {
                self.with_ledger(
                    ledger.request(Action::Acquire(Resource::Value(Property::DisplayName))),
                )
            } else {
                self.with_ledger(ledger.request(Action::Acquire(Resource::Object)))
            },
            _ => self.failed(event),
        }
    }

    /// The answer to the read of a property. The name is kept until the
    /// status code of the same row arrives and the two make a product; either
    /// way the container is given back at once.
    pub open spec fn on_value(self, property: Property, event: Event) -> ScanView {
        let ledger = self.ledger.absorb(event);
        match event {
            Event::Property(value) => match property {
                Property::DisplayName => ScanView {
                    ledger: ledger.release_next(),
                    name: string_of(value),
                    ..self
                },
                Property::ProductState => ScanView {
                    ledger: ledger.release_next(),
                    products: self.products.push(product_of(self.name, integer_of(value))),
                    ..self
                },
            },
            _ => self.failed(event),
        }
    }

    /// The answer to any other acquisition: once granted, the scan goes one
    /// level further down.
    pub open spec fn on_grant(self, resource: Resource, event: Event) -> ScanView {
        if grants(self.ledger.pending, event) is Some {
            self.with_ledger(self.ledger.absorb(event).request(descend(self.family, resource)))
        } else {
            self.failed(event)
        }
    }

    /// The answer to the read of a firewall setting: it is recorded and the
    /// next one asked for.
    pub open spec fn on_setting(self, profile: Profile, setting: Setting, event: Event) -> ScanView {
        match reading(setting, event) {
            Some(value) => ScanView {
                ledger: self.ledger.absorb(event).request(after_reading(profile, setting)),
                profiles: self.profiles.with(profile, setting, value),
                ..self
            },
            None => self.failed(event),
        }
    }

    /// The answer to a release on the way through the rows: after the name's
    /// container the status code is read, after the code's container the row
    /// is given back, after the row the next one is asked for.
    pub open spec fn on_release(self, resource: Resource, event: Event) -> ScanView {
        let ledger = self.ledger.absorb(event);
        match event {
            Event::Released => match resource {
                Resource::Value(Property::DisplayName) => self.with_ledger(
                    ledger.request(Action::Acquire(Resource::Value(Property::ProductState))),
                ),
                Resource::Value(Property::ProductState) => self.with_ledger(
                    ledger.release_next(),
                ),
                Resource::Object => self.with_ledger(
                    ledger.request(Action::Acquire(Resource::Object)),
                ),
                _ => self.failed(event),
            },
            _ => self.failed(event),
        }
    }

    /// The scan after the caller has answered the pending action with `event`.
    ///
    /// While winding down, every answer leads to the next release. Otherwise
    /// the pending action decides how the answer is read; an answer that the
    /// action cannot have fails the scan.
    pub open spec fn next(self, event: Event) -> ScanView {
        if self.ledger.closing {
            self.with_ledger(self.ledger.absorb(event).release_next())
        } else {
            match self.ledger.pending {
                Action::Acquire(Resource::Object) => self.on_row(event),
                Action::Acquire(Resource::Value(property)) => self.on_value(property, event),
                Action::Acquire(resource) => self.on_grant(resource, event),
                Action::Read(Field::Firewall(profile, setting)) => self.on_setting(
                    profile,
                    setting,
                    event,
                ),
                Action::Release(resource) => self.on_release(resource, event),
                _ => self.failed(event),
            }
        }
    }

    /// The scan after the caller has given all of `events`, in order.
    pub open spec fn after(self, events: Seq<Event>) -> ScanView
        decreases events.len(),
    {
        if events.len() == 0 {
            self
        } else {
            self.after(events.drop_last()).next(events.last())
        }
    }

    /// The ledgers the scan goes through while it is given `events`.
    pub open spec fn ledgers(self, events: Seq<Event>) -> Seq<LedgerView> {
        Seq::new((events.len() + 1) as nat, |i: int| self.after(events.take(i)).ledger)
    }

    /// What the scan returns as a firewall collector: the profiles and the
    /// products as two values, with the namespace and the query that the
    /// products came from; or the error, as in [`Self::outcome`].
    pub open spec fn firewall_outcome(self) -> Result<
        (WindowsFirewallProfile, Seq<ProductView>, Seq<char>, Seq<char>),
        ScanError,
    > {
        match self.outcome() {
            Ok(products) => Ok(
                (self.profiles, products, SECURITY_CENTER_NAMESPACE@, FIREWALL_QUERY@),
            ),
            Err(error) => Err(error),
        }
    }

    /// What the scan returns: the first failure if there was one, the
    /// products in the order of the rows if the scan is over, and a protocol
    /// error for a scan that is still under way.
    pub open spec fn outcome(self) -> Result<Seq<ProductView>, ScanError> {
        match self.ledger.failure {
            Some(error) => Err(error),
            None => if self.ledger.finished() {
                Ok(self.products)
            } else {
                Err(ScanError::Protocol(self.ledger.pending))
            },
        }
    }
}

/// Model of what the firewall collector returns.
pub open spec fn firewall_view(
    r: Result<(WindowsFirewallProfile, Vec<FirewallProductInfo>, ModuleInfo), ScanError>,
) -> Result<(WindowsFirewallProfile, Seq<ProductView>, Seq<char>, Seq<char>), ScanError> {
    match r {
        Ok((profiles, products, module)) => Ok(
            (profiles, product_views(products@), module.namespace@, module.query@),
        ),
        Err(error) => Err(error),
    }
}

/// Model of a product list that may have failed.
pub open spec fn result_view(r: Result<Vec<ProductInfo>, ScanError>) -> Result<
    Seq<ProductView>,
    ScanError,
> {
    match r {
        Ok(products) => Ok(product_views(products@)),
        Err(error) => Err(error),
    }
}

impl ProductScan {
    /// Begins an enumeration of the products of `family`.
    pub fn begin(family: Family, platform: Platform) -> (scan: ProductScan)
        ensures
            scan@ == ScanView::begin(family, platform),
    {
        let ledger = match platform {
            Platform::Windows => Ledger::begin(Action::Acquire(Resource::Session)),
            Platform::Other => Ledger::refuse(ScanError::NotWindows),
        };
        let scan = ProductScan {
            family,
            ledger,
            profiles: WindowsFirewallProfile::new(),
            name: String::new(),
            products: Vec::new(),
        };
        assert(product_views(scan.products@) =~= Seq::empty());
        scan
    }

    /// The action that the caller has to answer next.
    pub fn pending(&self) -> (action: Action)
        ensures
            action == self@.ledger.pending,
    {
        self.ledger.pending()
    }

    /// The bookkeeping of the scan.
    pub fn ledger(&self) -> (ledger: &Ledger)
        ensures
            ledger@ == self@.ledger,
    {
        &self.ledger
    }

    /// The profiles of the built-in firewall as far as they have been read.
    pub fn profiles(&self) -> (profiles: WindowsFirewallProfile)
        ensures
            profiles == self@.profiles,
    {
        self.profiles
    }

    /// The text of the query that `Acquire(Enumerator)` stands for.
    pub fn query(&self) -> (text: &'static str)
        ensures
            text@ == (match self@.family {
                Family::Antivirus => ANTIVIRUS_QUERY@,
                Family::Firewall => FIREWALL_QUERY@,
            }),
    {
        match self.family {
            Family::Antivirus => ANTIVIRUS_QUERY,
            Family::Firewall => FIREWALL_QUERY,
        }
    }

    fn step_row(&mut self, event: Event) -> (action: Action)
        ensures
            final(self)@ == old(self)@.on_row(event),
            action == final(self)@.ledger.pending,
    {
        let step = match &event {
            Event::Fetched(returned, present) => {
                if *returned == 0 {
                    Move::WindDown
                } else if *present {
                    Move::Ask(Action::Acquire(Resource::Value(Property::DisplayName)))
                } else {
                    Move::Ask(Action::Acquire(Resource::Object))
                }
            },
            _ => Move::Fail,
        };
        self.ledger.make(&event, step)
    }

    fn keep_name(&mut self, value: &PropertyValue)
        ensures
            final(self)@ == (ScanView { name: string_of(*value), ..old(self)@ }),
    {
        self.name = string_property(value);
    }

    fn add_product(&mut self, value: &PropertyValue)
        ensures
            final(self)@ == (ScanView {
                products: old(self)@.products.push(
                    product_of(old(self)@.name, integer_of(*value)),
                ),
                ..old(self)@
            }),
    {
        let product = ProductInfo::new(self.name.clone(), integer_property(value));
        proof {
            assert(product_views(self.products@.push(product)) =~= product_views(
                self.products@,
            ).push(product@));
        }
        self.products.push(product);
    }

    fn step_value(&mut self, property: Property, event: Event) -> (action: Action)
        ensures
            final(self)@ == old(self)@.on_value(property, event),
            action == final(self)@.ledger.pending,
    {
        match &event {
            Event::Property(value) => {
                match property {
                    Property::DisplayName => self.keep_name(value),
                    Property::ProductState => self.add_product(value),
                }
                self.ledger.make(&event, Move::GiveBack)
            },
            _ => self.ledger.make(&event, Move::Fail),
        }
    }

    fn step_grant(&mut self, resource: Resource, event: Event) -> (action: Action)
        ensures
            final(self)@ == old(self)@.on_grant(resource, event),
            action == final(self)@.ledger.pending,
    {
        let step = match granted(self.ledger.pending(), &event) {
            Some(_) => Move::Ask(
                match resource {
                    Resource::Session => match self.family {
                        Family::Firewall => Action::Acquire(Resource::Policy),
                        Family::Antivirus => Action::Acquire(Resource::Locator),
                    },
                    Resource::Policy => Action::Read(
                        Field::Firewall(Profile::Public, Setting::Enabled),
                    ),
                    Resource::Locator => Action::Acquire(Resource::Services),
                    Resource::Services => Action::Acquire(Resource::Enumerator),
                    _ => Action::Acquire(Resource::Object),
                },
            ),
            None => Move::Fail,
        };
        self.ledger.make(&event, step)
    }

    fn step_setting(&mut self, profile: Profile, setting: Setting, event: Event) -> (action:
        Action)
        ensures
            final(self)@ == old(self)@.on_setting(profile, setting, event),
            action == final(self)@.ledger.pending,
    {
        match read_setting(setting, &event) {
            Some(value) => {
                self.profiles.set(profile, setting, value);
                self.ledger.make(&event, Move::Ask(next_reading(profile, setting)))
            },
            None => self.ledger.make(&event, Move::Fail),
        }
    }

    fn step_release(&mut self, resource: Resource, event: Event) -> (action: Action)
        ensures
            final(self)@ == old(self)@.on_release(resource, event),
            action == final(self)@.ledger.pending,
    {
        let step = match &event {
            Event::Released => match resource {
                Resource::Value(Property::DisplayName) => Move::Ask(
                    Action::Acquire(Resource::Value(Property::ProductState)),
                ),
                Resource::Value(Property::ProductState) => Move::GiveBack,
                Resource::Object => Move::Ask(Action::Acquire(Resource::Object)),
                _ => Move::Fail,
            },
            _ => Move::Fail,
        };
        self.ledger.make(&event, step)
    }

    /// Takes the caller's answer to the pending action and says what to do
    /// next.
    pub fn step(&mut self, event: Event) -> (action: Action)
        ensures
            final(self)@ == old(self)@.next(event),
            action == final(self)@.ledger.pending,
    {
        if self.ledger.is_closing() {
            return self.ledger.make(&event, Move::GiveBack);
        }
        match self.ledger.pending() {
            Action::Acquire(Resource::Object) => self.step_row(event),
            Action::Acquire(Resource::Value(property)) => self.step_value(property, event),
            Action::Acquire(resource) => self.step_grant(resource, event),
            Action::Read(Field::Firewall(profile, setting)) => self.step_setting(
                profile,
                setting,
                event,
            ),
            Action::Release(resource) => self.step_release(resource, event),
            _ => self.ledger.make(&event, Move::Fail),
        }
    }

    /// Ends the scan and hands out the products it found.
    pub fn finish(self) -> (r: Result<Vec<ProductInfo>, ScanError>)
        ensures
            result_view(r) == self@.outcome(),
    {
        match self.ledger.failure() {
            Some(error) => Err(error),
            None => match self.ledger.pending() {
                Action::Finish => Ok(self.products),
                pending => Err(ScanError::Protocol(pending)),
            },
        }
    }
}

impl ProductScan {
    /// Ends a firewall scan and hands out the profiles of the built-in
    /// firewall beside the third-party products, never merged.
    pub fn finish_firewall(self) -> (r: Result<
        (WindowsFirewallProfile, Vec<FirewallProductInfo>, ModuleInfo),
        ScanError,
    >)
        ensures
            firewall_view(r) == self@.firewall_outcome(),
    {
        let profiles = self.profiles;
        match self.finish() {
            Ok(products) => {
                let module = ModuleInfo {
                    namespace: SECURITY_CENTER_NAMESPACE.to_string(),
                    query: FIREWALL_QUERY.to_string(),
                };
                Ok((profiles, products, module))
            },
            Err(error) => Err(error),
        }
    }
}

/// Every step of a scan is honest bookkeeping, and none asks for the session
/// again.
pub proof fn lemma_step_follows(scan: ScanView, event: Event)
    ensures
        follows(scan.ledger, event, scan.next(event).ledger),
        !scan.next(event).ledger.pending.asks_for_session(),
{
}

/// The ledgers of a scan that began on `platform` form a run, whatever the
/// caller answers.
pub proof fn lemma_scan_is_run(family: Family, platform: Platform, events: Seq<Event>)
    ensures
        is_run(ScanView::begin(family, platform).ledgers(events), events),
{
    let start = ScanView::begin(family, platform);
    let ledgers = start.ledgers(events);
    assert(events.take(0) =~= Seq::empty());
    assert forall|i: int| 0 <= i < events.len() implies follows(
        #[trigger] ledgers[i],
        events[i],
        ledgers[i + 1],
    ) by {
        let before = start.after(events.take(i));
        assert(events.take(i + 1).drop_last() =~= events.take(i));
        assert(events.take(i + 1).last() == events[i]);
        lemma_step_follows(before, events[i]);
    }
}

/// A scan that has come to its end has released every resource that it
/// acquired, whether it succeeded or failed and whatever the caller answered
/// on the way.
pub proof fn lemma_finished_scan_is_balanced(
    family: Family,
    platform: Platform,
    events: Seq<Event>,
)
    requires
        ScanView::begin(family, platform).after(events).ledger.finished(),
    ensures
        acquisitions(ScanView::begin(family, platform).ledgers(events), events, events.len())
            == releases(ScanView::begin(family, platform).ledgers(events), events.len()),
{
    let start = ScanView::begin(family, platform);
    lemma_scan_is_run(family, platform, events);
    assert(events.take(events.len() as int) =~= events);
    lemma_finished_run_is_balanced(start.ledgers(events), events);
}

/// The bookkeeping of a scan stays orderly, whatever the caller answers.
pub proof fn lemma_scan_is_orderly(family: Family, platform: Platform, events: Seq<Event>)
    ensures
        ScanView::begin(family, platform).after(events).ledger.orderly(),
    decreases events.len(),
{
    let start = ScanView::begin(family, platform);
    if events.len() > 0 {
        lemma_scan_is_orderly(family, platform, events.drop_last());
        let before = start.after(events.drop_last());
        lemma_step_follows(before, events.last());
        lemma_orderly_step(before.ledger, events.last(), before.next(events.last()).ledger);
    }
}

/// When a scan asks for the session to be closed, it holds nothing else:
/// every object obtained inside the session has been released before.
pub proof fn lemma_scan_closes_session_last(
    family: Family,
    platform: Platform,
    events: Seq<Event>,
)
    requires
        ScanView::begin(family, platform).after(events).ledger.pending == Action::Release(
            Resource::Session,
        ),
    ensures
        ScanView::begin(family, platform).after(events).ledger.held.len() == 0,
{
    let start = ScanView::begin(family, platform);
    if events.len() > 0 {
        lemma_scan_is_orderly(family, platform, events.drop_last());
        let before = start.after(events.drop_last());
        lemma_step_follows(before, events.last());
        lemma_session_is_closed_last(
            before.ledger,
            events.last(),
            before.next(events.last()).ledger,
        );
    }
}

/// Once a scan winds down, nothing the caller answers changes what it
/// returns in the end.
pub proof fn lemma_closing_keeps_result(scan: ScanView, events: Seq<Event>)
    requires
        scan.ledger.closing,
    ensures
        scan.after(events).ledger.closing,
        scan.after(events).ledger.failure == scan.ledger.failure,
        scan.after(events).products == scan.products,
        scan.after(events).profiles == scan.profiles,
    decreases events.len(),
{
    if events.len() > 0 {
        lemma_closing_keeps_result(scan, events.drop_last());
    }
}

/// An enumerator that returns no row ends the scan without an error: what
/// the scan returns once it has wound down is the list of the products read
/// so far, and the empty list where there was none.
pub proof fn lemma_end_of_rows_is_success(scan: ScanView, present: bool, events: Seq<Event>)
    requires
        scan.ledger.pending == Action::Acquire(Resource::Object),
        !scan.ledger.closing,
        scan.ledger.failure is None,
        scan.next(Event::Fetched(0, present)).after(events).ledger.finished(),
    ensures
        scan.next(Event::Fetched(0, present)).after(events).outcome() == Ok::<
            Seq<ProductView>,
            ScanError,
        >(scan.products),
{
    lemma_closing_keeps_result(scan.next(Event::Fetched(0, present)), events);
}

/// While it winds down, a scan does nothing but give back what it
/// holds: its ledger is the one that unwinding alone leads to, so the scan
/// is over after one answer per resource held and one more.
pub proof fn lemma_winding_down_is_unwinding(scan: ScanView, events: Seq<Event>)
    requires
        scan.ledger.winding_down(),
    ensures
        scan.after(events).ledger == scan.ledger.unwound(events),
        events.len() > scan.ledger.held.len() ==> scan.after(events).ledger.finished(),
    decreases events.len(),
{
    lemma_winding_down(scan.ledger, events);
    if events.len() > 0 {
        lemma_winding_down_is_unwinding(scan, events.drop_last());
        lemma_winding_down(scan.ledger, events.drop_last());
    }
}

/// Whatever the caller answers, a scan that has begun to wind down
/// has told the caller so.
pub proof fn lemma_scan_is_coherent(family: Family, platform: Platform, events: Seq<Event>)
    ensures
        ScanView::begin(family, platform).after(events).ledger.coherent(),
    decreases events.len(),
{
    if events.len() > 0 {
        lemma_scan_is_coherent(family, platform, events.drop_last());
    }
}

/// The resources of a scan in the order in which it acquires them, down to
/// the row. The container of a property comes on top of the row and is given
/// back before anything else happens.
pub open spec fn chain(family: Family) -> Seq<Resource> {
    if family == Family::Firewall {
        seq![
            Resource::Session,
            Resource::Policy,
            Resource::Locator,
            Resource::Services,
            Resource::Enumerator,
            Resource::Object,
        ]
    } else {
        seq![
            Resource::Session,
            Resource::Locator,
            Resource::Services,
            Resource::Enumerator,
            Resource::Object,
        ]
    }
}

/// How many links of the chain a scan holds while it waits for the answer to
/// `pending`, for the actions that a scan of `family` asks for before it
/// winds down.
pub open spec fn depth(family: Family, pending: Action) -> Option<int> {
    let policy: int = if family == Family::Firewall {
        1
    } else {
        0
    };
    match pending {
        Action::Acquire(Resource::Session) => Some(0),
        Action::Acquire(Resource::Policy) => if family == Family::Firewall {
            Some(1)
        } else {
            None
        },
        Action::Read(Field::Firewall(_, _)) => if family == Family::Firewall {
            Some(2)
        } else {
            None
        },
        Action::Acquire(Resource::Locator) => Some(1 + policy),
        Action::Acquire(Resource::Services) => Some(2 + policy),
        Action::Acquire(Resource::Enumerator) => Some(3 + policy),
        Action::Acquire(Resource::Object) => Some(4 + policy),
        Action::Acquire(Resource::Value(_)) => Some(5 + policy),
        Action::Release(Resource::Value(_)) => Some(5 + policy),
        Action::Release(Resource::Object) => Some(4 + policy),
        _ => None,
    }
}

impl ScanView {
    /// What is held is a front part of the chain; a scan that is not winding
    /// down holds exactly as much of it as its pending action works through;
    /// a scan that is winding down has told the caller so.
    pub open spec fn shaped(self) -> bool {
        &&& self.ledger.held.len() <= chain(self.family).len()
        &&& self.ledger.held == chain(self.family).take(self.ledger.held.len() as int)
        &&& self.ledger.closing ==> self.ledger.winding_down()
        &&& !self.ledger.closing ==> depth(self.family, self.ledger.pending) == Some(
            self.ledger.held.len() as int,
        )
    }
}

/// One answer leaves a scan in shape.
pub proof fn lemma_step_keeps_shape(scan: ScanView, event: Event)
    requires
        scan.shaped(),
    ensures
        scan.next(event).shaped(),
{
    reveal(grants);
    let links = chain(scan.family);
    let held = scan.ledger.held;
    let after = scan.next(event).ledger.held;
    let grown = scan.ledger.absorb(event).held;
    if grown.len() > held.len() && !(scan.ledger.pending is Acquire
        && scan.ledger.pending->Acquire_0 is Value) {
        assert(grown =~= links.take(held.len() as int + 1));
    }
    if after.len() < grown.len() && grown.len() <= links.len() {
        assert(grown.drop_last() =~= links.take(grown.len() - 1)) by {
            assert(grown =~= links.take(grown.len() as int));
        }
    }
    if after.len() < grown.len() && grown.len() > links.len() {
        assert(grown.drop_last() =~= held);
    }
    assert(after =~= links.take(after.len() as int));
}

/// Whatever the caller answers, a scan stays in shape: it holds a front
/// part of its chain, so every object is obtained inside the session and
/// through the object acquired before it, and every action is asked for
/// only while what it works through is held.
pub proof fn lemma_scan_is_shaped(family: Family, platform: Platform, events: Seq<Event>)
    ensures
        ScanView::begin(family, platform).after(events).shaped(),
    decreases events.len(),
{
    let start = ScanView::begin(family, platform);
    if events.len() == 0 {
        assert(start.ledger.held =~= chain(family).take(0));
    } else {
        lemma_scan_is_shaped(family, platform, events.drop_last());
        lemma_step_keeps_shape(start.after(events.drop_last()), events.last());
    }
}

/// A scan is over only once it has wound down: it never reports a result
/// while anything is left to ask for.
pub proof fn lemma_scan_finishes_by_winding_down(
    family: Family,
    platform: Platform,
    events: Seq<Event>,
)
    requires
        ScanView::begin(family, platform).after(events).ledger.finished(),
    ensures
        ScanView::begin(family, platform).after(events).ledger.closing,
        ScanView::begin(family, platform).after(events).ledger.held.len() == 0,
{
    lemma_scan_is_shaped(family, platform, events);
    lemma_scan_is_run(family, platform, events);
    if events.len() > 0 {
        let before = ScanView::begin(family, platform).after(events.drop_last());
        lemma_step_follows(before, events.last());
    }
}

/// Whatever a property's container turns out to hold, the very next thing
/// a scan asks for is to have it cleared: the tag decides what is read out
/// of the container, never whether it is given back.
pub proof fn lemma_container_is_always_cleared(
    scan: ScanView,
    property: Property,
    value: PropertyValue,
)
    requires
        scan.ledger.pending == Action::Acquire(Resource::Value(property)),
        !scan.ledger.closing,
    ensures
        scan.next(Event::Property(value)).ledger.pending == Action::Release(
            Resource::Value(property),
        ),
        scan.next(Event::Property(value)).ledger.held == scan.ledger.held,
        scan.next(Event::Property(value)).ledger.failure == scan.ledger.failure,
{
    reveal(grants);
    let pushed = scan.ledger.held.push(Resource::Value(property));
    assert(pushed.drop_last() =~= scan.ledger.held);
}

/// An antivirus scan that has opened the session, connected and run its
/// query, with no row read yet.
pub open spec fn connected() -> ScanView {
    ScanView::begin(Family::Antivirus, Platform::Windows).next(
        Event::Status(crate::session::S_OK),
    ).next(Event::Granted).next(Event::Granted).next(Event::Granted)
}

/// Where no antivirus product is registered, the scan returns the empty
/// list and no error: once the first fetch has returned nothing, the scan
/// is over after four more answers, whatever they are, and its result is
/// the list without an entry.
pub proof fn lemma_empty_enumeration_is_empty_list(present: bool, answers: Seq<Event>)
    requires
        answers.len() >= 4,
    ensures
        connected().next(Event::Fetched(0, present)).after(answers).ledger.finished(),
        connected().next(Event::Fetched(0, present)).after(answers).outcome() == Ok::<
            Seq<ProductView>,
            ScanError,
        >(Seq::empty()),
{
    reveal(grants);
    let opened = ScanView::begin(Family::Antivirus, Platform::Windows).next(
        Event::Status(crate::session::S_OK),
    );
    let located = opened.next(Event::Granted);
    let served = located.next(Event::Granted);
    let asked = served.next(Event::Granted);
    assert(asked == connected());
    assert(asked.ledger.held.len() == 4);
    assert(asked.ledger.pending == Action::Acquire(Resource::Object));
    let ended = asked.next(Event::Fetched(0, present));
    assert(ended.ledger.held.len() == 3);
    lemma_winding_down_is_unwinding(ended, answers);
    lemma_closing_keeps_result(ended, answers);
}

/// The answers of a subsystem that hands out one row: the row itself, its
/// name, the cleared container, its status code, the cleared container, and
/// the released row.
pub open spec fn row_answers(name: PropertyValue, state: PropertyValue) -> Seq<Event> {
    Seq::<Event>::empty().push(Event::Fetched(1, true)).push(Event::Property(name)).push(
        Event::Released,
    ).push(Event::Property(state)).push(Event::Released).push(Event::Released)
}

/// The answers of a subsystem that hands out these rows one after another,
/// each as a pair of name and status code.
pub open spec fn rows_answers(rows: Seq<(PropertyValue, PropertyValue)>) -> Seq<Event>
    decreases rows.len(),
{
    if rows.len() == 0 {
        Seq::empty()
    } else {
        rows_answers(rows.drop_last()) + row_answers(rows.last().0, rows.last().1)
    }
}

/// The products that these rows stand for: the name read as a string, the
/// status code read as an integer and decoded.
pub open spec fn products_of(rows: Seq<(PropertyValue, PropertyValue)>) -> Seq<ProductView> {
    Seq::new(rows.len(), |i: int| product_of(string_of(rows[i].0), integer_of(rows[i].1)))
}

/// A scan that is given one more answer is the scan after the answers
/// before, one step on.
pub proof fn lemma_after_push(scan: ScanView, events: Seq<Event>, event: Event)
    ensures
        scan.after(events.push(event)) == scan.after(events).next(event),
{
    assert(events.push(event).drop_last() =~= events);
}

/// Answers given in two batches lead where the two batches in a row lead.
pub proof fn lemma_after_concat(scan: ScanView, first: Seq<Event>, second: Seq<Event>)
    ensures
        scan.after(first + second) == scan.after(first).after(second),
    decreases second.len(),
{
    if second.len() == 0 {
        assert(first + second =~= first);
    } else {
        lemma_after_concat(scan, first, second.drop_last());
        assert((first + second).drop_last() =~= first + second.drop_last());
        assert((first + second).last() == second.last());
    }
}

/// A row that the enumerator hands out goes on top of what is held, and its
/// name is asked for.
pub proof fn lemma_row_is_taken(scan: ScanView, returned: u32)
    requires
        scan.ledger.pending == Action::Acquire(Resource::Object),
        !scan.ledger.closing,
        returned != 0,
    ensures
        scan.next(Event::Fetched(returned, true)) == scan.with_ledger(
            LedgerView {
                pending: Action::Acquire(Resource::Value(Property::DisplayName)),
                held: scan.ledger.held.push(Resource::Object),
                ..scan.ledger
            },
        ),
{
    reveal(grants);
}

/// The name of a row is kept, and its container asked back at once.
pub proof fn lemma_name_is_kept(scan: ScanView, value: PropertyValue)
    requires
        scan.ledger.pending == Action::Acquire(Resource::Value(Property::DisplayName)),
        !scan.ledger.closing,
    ensures
        scan.next(Event::Property(value)) == (ScanView {
            ledger: LedgerView {
                pending: Action::Release(Resource::Value(Property::DisplayName)),
                ..scan.ledger
            },
            name: string_of(value),
            ..scan
        }),
{
    reveal(grants);
    let pushed = scan.ledger.held.push(Resource::Value(Property::DisplayName));
    assert(pushed.drop_last() =~= scan.ledger.held);
}

/// Once the name's container is cleared, the status code is asked for.
pub proof fn lemma_code_follows_name(scan: ScanView)
    requires
        scan.ledger.pending == Action::Release(Resource::Value(Property::DisplayName)),
        !scan.ledger.closing,
    ensures
        scan.next(Event::Released) == scan.with_ledger(
            LedgerView {
                pending: Action::Acquire(Resource::Value(Property::ProductState)),
                ..scan.ledger
            },
        ),
{
    reveal(grants);
}

/// The status code of a row completes the product, and its container is
/// asked back at once.
pub proof fn lemma_code_completes_product(scan: ScanView, value: PropertyValue)
    requires
        scan.ledger.pending == Action::Acquire(Resource::Value(Property::ProductState)),
        !scan.ledger.closing,
    ensures
        scan.next(Event::Property(value)) == (ScanView {
            ledger: LedgerView {
                pending: Action::Release(Resource::Value(Property::ProductState)),
                ..scan.ledger
            },
            products: scan.products.push(product_of(scan.name, integer_of(value))),
            ..scan
        }),
{
    reveal(grants);
    let pushed = scan.ledger.held.push(Resource::Value(Property::ProductState));
    assert(pushed.drop_last() =~= scan.ledger.held);
}

/// Once the code's container is cleared, the row on top is asked back.
pub proof fn lemma_row_follows_code(scan: ScanView)
    requires
        scan.ledger.pending == Action::Release(Resource::Value(Property::ProductState)),
        !scan.ledger.closing,
        scan.ledger.held.len() > 0,
        scan.ledger.held.last() == Resource::Object,
    ensures
        scan.next(Event::Released) == scan.with_ledger(
            LedgerView {
                pending: Action::Release(Resource::Object),
                held: scan.ledger.held.drop_last(),
                ..scan.ledger
            },
        ),
{
    reveal(grants);
}

/// Once the row is released, the next one is asked for.
pub proof fn lemma_fetch_follows_row(scan: ScanView)
    requires
        scan.ledger.pending == Action::Release(Resource::Object),
        !scan.ledger.closing,
    ensures
        scan.next(Event::Released) == scan.with_ledger(
            LedgerView { pending: Action::Acquire(Resource::Object), ..scan.ledger },
        ),
{
    reveal(grants);
}

/// One row read: the scan is back where it asks for the next row, holds
/// what it held, and its list has grown by the product that the row stands
/// for.
pub proof fn lemma_row_adds_product(scan: ScanView, name: PropertyValue, state: PropertyValue)
    requires
        scan.ledger.pending == Action::Acquire(Resource::Object),
        !scan.ledger.closing,
    ensures
        scan.after(row_answers(name, state)) == (ScanView {
            name: string_of(name),
            products: scan.products.push(product_of(string_of(name), integer_of(state))),
            ..scan
        }),
{
    let e0 = Seq::<Event>::empty();
    let e1 = e0.push(Event::Fetched(1, true));
    let e2 = e1.push(Event::Property(name));
    let e3 = e2.push(Event::Released);
    let e4 = e3.push(Event::Property(state));
    let e5 = e4.push(Event::Released);
    let s1 = scan.next(Event::Fetched(1, true));
    let s2 = s1.next(Event::Property(name));
    let s3 = s2.next(Event::Released);
    let s4 = s3.next(Event::Property(state));
    let s5 = s4.next(Event::Released);
    let s6 = s5.next(Event::Released);
    lemma_row_is_taken(scan, 1);
    lemma_name_is_kept(s1, name);
    lemma_code_follows_name(s2);
    lemma_code_completes_product(s3, state);
    lemma_row_follows_code(s4);
    assert(scan.ledger.held.push(Resource::Object).drop_last() =~= scan.ledger.held);
    lemma_fetch_follows_row(s5);
    assert(s6.ledger == scan.ledger);
    lemma_after_push(scan, e0, Event::Fetched(1, true));
    lemma_after_push(scan, e1, Event::Property(name));
    lemma_after_push(scan, e2, Event::Released);
    lemma_after_push(scan, e3, Event::Property(state));
    lemma_after_push(scan, e4, Event::Released);
    lemma_after_push(scan, e5, Event::Released);
}

/// Rows read one after another: the scan is back where it asks for the next
/// row, holds what it held, and its list has grown by the products that the
/// rows stand for, in the order of the rows.
pub proof fn lemma_rows_add_products(scan: ScanView, rows: Seq<(PropertyValue, PropertyValue)>)
    requires
        scan.ledger.pending == Action::Acquire(Resource::Object),
        !scan.ledger.closing,
    ensures
        scan.after(rows_answers(rows)).ledger == scan.ledger,
        scan.after(rows_answers(rows)).family == scan.family,
        scan.after(rows_answers(rows)).profiles == scan.profiles,
        scan.after(rows_answers(rows)).products == scan.products + products_of(rows),
    decreases rows.len(),
{
    if rows.len() == 0 {
        assert(scan.products + products_of(rows) =~= scan.products);
    } else {
        let front = rows.drop_last();
        let last = rows.last();
        lemma_rows_add_products(scan, front);
        lemma_after_concat(scan, rows_answers(front), row_answers(last.0, last.1));
        lemma_row_adds_product(scan.after(rows_answers(front)), last.0, last.1);
        assert((scan.products + products_of(front)).push(
            product_of(string_of(last.0), integer_of(last.1)),
        ) =~= scan.products + products_of(rows));
    }
}

/// What an antivirus scan returns when nothing fails: the session opens,
/// the locator, the connection and the query are granted, the enumerator
/// hands out rows and then none. Four answers later the scan is over, and
/// its result is the list of the products that the rows stand for, one per
/// row and in their order.
pub proof fn lemma_scan_returns_the_rows(
    rows: Seq<(PropertyValue, PropertyValue)>,
    present: bool,
    answers: Seq<Event>,
)
    requires
        answers.len() >= 4,
    ensures
        connected().after(rows_answers(rows)).next(Event::Fetched(0, present)).after(
            answers,
        ).outcome() == Ok::<Seq<ProductView>, ScanError>(products_of(rows)),
{
    reveal(grants);
    let opened = ScanView::begin(Family::Antivirus, Platform::Windows).next(
        Event::Status(crate::session::S_OK),
    );
    let located = opened.next(Event::Granted);
    let served = located.next(Event::Granted);
    let asked = served.next(Event::Granted);
    assert(asked == connected());
    assert(asked.ledger.held.len() == 4);
    assert(asked.products =~= Seq::empty());
    lemma_rows_add_products(asked, rows);
    let read = asked.after(rows_answers(rows));
    assert(read.products =~= products_of(rows));
    let ended = read.next(Event::Fetched(0, present));
    assert(ended.ledger.held.len() == 3);
    lemma_winding_down_is_unwinding(ended, answers);
    lemma_closing_keeps_result(ended, answers);
}

/// The four settings of a profile as the policy interface reports them.
pub struct ProfileAnswers {
    pub enabled: i16,
    pub inbound_action: i32,
    pub outbound_action: i32,
    pub notifications_disabled: i16,
}

impl ProfileAnswers {
    /// What the four answers say of the profile.
    pub open spec fn details(self) -> crate::firewall::FirewallProfileDetails {
        crate::firewall::FirewallProfileDetails {
            profile_enabled: self.enabled == crate::firewall::VARIANT_TRUE,
            inbound_blocked: self.inbound_action == crate::firewall::NET_FW_ACTION_BLOCK,
            outbound_blocked: self.outbound_action == crate::firewall::NET_FW_ACTION_BLOCK,
            notifications_disabled: self.notifications_disabled == crate::firewall::VARIANT_TRUE,
        }
    }
}

impl ScanView {
    /// The scan one answer on, as [`Self::next`] defines it. Proofs about
    /// long runs take their steps through this name, which they open one
    /// step at a time.
    #[verifier::opaque]
    pub open spec fn answered(self, event: Event) -> ScanView {
        self.next(event)
    }

    /// The scan after the four settings of a profile have been answered.
    pub open spec fn read_profile(self, answers: ProfileAnswers) -> ScanView {
        self.answered(Event::Flag(answers.enabled)).answered(
            Event::Long(answers.inbound_action),
        ).answered(Event::Long(answers.outbound_action)).answered(
            Event::Flag(answers.notifications_disabled),
        )
    }
}

/// One answer to the read of a setting: the setting is what the answer
/// says, nothing else changes, and the next setting is asked for.
pub proof fn lemma_setting_is_read(
    scan: ScanView,
    profile: Profile,
    setting: Setting,
    event: Event,
)
    requires
        scan.ledger.pending == Action::Read(Field::Firewall(profile, setting)),
        !scan.ledger.closing,
        reading(setting, event) is Some,
    ensures
        scan.answered(event) == (ScanView {
            ledger: LedgerView { pending: after_reading(profile, setting), ..scan.ledger },
            profiles: scan.profiles.with(profile, setting, reading(setting, event).unwrap()),
            ..scan
        }),
{
    reveal(grants);
    reveal(ScanView::answered);
}

/// Four answers complete a profile: each setting is what its answer says,
/// nothing else changes, and the scan turns to the next profile, or to the
/// product list after the last one.
pub proof fn lemma_profile_is_read(scan: ScanView, profile: Profile, answers: ProfileAnswers)
    requires
        scan.ledger.pending == Action::Read(Field::Firewall(profile, Setting::Enabled)),
        !scan.ledger.closing,
    ensures
        scan.read_profile(answers) == (ScanView {
            ledger: LedgerView {
                pending: after_reading(profile, Setting::NotificationsDisabled),
                ..scan.ledger
            },
            profiles: scan.profiles.replaced(profile, answers.details()),
            ..scan
        }),
{
    let e1 = Event::Flag(answers.enabled);
    let e2 = Event::Long(answers.inbound_action);
    let e3 = Event::Long(answers.outbound_action);
    let e4 = Event::Flag(answers.notifications_disabled);
    let s1 = scan.answered(e1);
    lemma_setting_is_read(scan, profile, Setting::Enabled, e1);
    let s2 = s1.answered(e2);
    lemma_setting_is_read(s1, profile, Setting::InboundAction, e2);
    let s3 = s2.answered(e3);
    lemma_setting_is_read(s2, profile, Setting::OutboundAction, e3);
    let s4 = s3.answered(e4);
    lemma_setting_is_read(s3, profile, Setting::NotificationsDisabled, e4);
    lemma_four_settings_make_a_profile(scan.profiles, profile, answers.details());
    assert(s4 == scan.read_profile(answers));
}

/// What a firewall scan knows once the policy has been read: with the
/// session open and the policy interface granted, twelve answers fill the
/// three profiles, public first, then private, then domain, and the scan
/// turns to the product list with session and policy held.
pub proof fn lemma_policy_is_read(public: ProfileAnswers, private: ProfileAnswers, domain: ProfileAnswers)
    ensures
        ({
            let read = ScanView::begin(Family::Firewall, Platform::Windows).next(
                Event::Status(crate::session::S_OK),
            ).next(Event::Granted).read_profile(public).read_profile(private).read_profile(
                domain,
            );
            &&& read.profiles == (WindowsFirewallProfile {
                public: public.details(),
                private: private.details(),
                domain: domain.details(),
            })
            &&& read.ledger.pending == Action::Acquire(Resource::Locator)
            &&& read.ledger.held == seq![Resource::Session, Resource::Policy]
            &&& read.ledger.failure is None
            &&& !read.ledger.closing
            &&& read.products == Seq::<ProductView>::empty()
        }),
{
    reveal(grants);
    let opened = ScanView::begin(Family::Firewall, Platform::Windows).next(
        Event::Status(crate::session::S_OK),
    );
    let granted = opened.next(Event::Granted);
    assert(granted.ledger.held =~= seq![Resource::Session, Resource::Policy]);
    assert(granted.ledger.pending == Action::Read(
        Field::Firewall(Profile::Public, Setting::Enabled),
    ));
    lemma_profile_is_read(granted, Profile::Public, public);
    let first = granted.read_profile(public);
    lemma_profile_is_read(first, Profile::Private, private);
    let second = first.read_profile(private);
    lemma_profile_is_read(second, Profile::Domain, domain);
}

/// A firewall scan that has read the policy, connected and run its query,
/// with no row read yet.
pub open spec fn policy_read_and_connected(
    public: ProfileAnswers,
    private: ProfileAnswers,
    domain: ProfileAnswers,
) -> ScanView {
    ScanView::begin(Family::Firewall, Platform::Windows).next(
        Event::Status(crate::session::S_OK),
    ).next(Event::Granted).read_profile(public).read_profile(private).read_profile(domain).next(
        Event::Granted,
    ).next(Event::Granted).next(Event::Granted)
}

/// What a firewall scan returns when nothing fails: the session opens, the
/// policy interface is granted and answers the twelve reads, the locator,
/// the connection and the query are granted, and the enumerator hands out
/// rows and then none. Five answers later the scan is over. Its result holds
/// the three profiles as the policy reported them and, beside them, the
/// third-party products that the rows stand for, one per row and in their
/// order: two values, never merged.
pub proof fn lemma_firewall_scan_returns_both(
    public: ProfileAnswers,
    private: ProfileAnswers,
    domain: ProfileAnswers,
    rows: Seq<(PropertyValue, PropertyValue)>,
    present: bool,
    answers: Seq<Event>,
)
    requires
        answers.len() >= 5,
    ensures
        policy_read_and_connected(public, private, domain).after(rows_answers(rows)).next(
            Event::Fetched(0, present),
        ).after(answers).firewall_outcome() == Ok::<
            (WindowsFirewallProfile, Seq<ProductView>, Seq<char>, Seq<char>),
            ScanError,
        >(
            (
                WindowsFirewallProfile {
                    public: public.details(),
                    private: private.details(),
                    domain: domain.details(),
                },
                products_of(rows),
                SECURITY_CENTER_NAMESPACE@,
                FIREWALL_QUERY@,
            ),
        ),
{
    reveal(grants);
    lemma_policy_is_read(public, private, domain);
    let read = ScanView::begin(Family::Firewall, Platform::Windows).next(
        Event::Status(crate::session::S_OK),
    ).next(Event::Granted).read_profile(public).read_profile(private).read_profile(domain);
    let located = read.next(Event::Granted);
    assert(located.ledger.held.len() == 3);
    let served = located.next(Event::Granted);
    assert(served.ledger.held.len() == 4);
    let asked = served.next(Event::Granted);
    assert(asked.ledger.held.len() == 5);
    assert(asked == policy_read_and_connected(public, private, domain));
    lemma_rows_add_products(asked, rows);
    let listed = asked.after(rows_answers(rows));
    assert(listed.products =~= products_of(rows));
    let ended = listed.next(Event::Fetched(0, present));
    assert(ended.ledger.held.len() == 4);
    lemma_winding_down_is_unwinding(ended, answers);
    lemma_closing_keeps_result(ended, answers);
}

} // verus!
