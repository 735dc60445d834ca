//! The account collector: enumerates the local user accounts and sums them
//! up.
//!
//! One enumeration call fills a buffer with records. Each record is copied
//! out and classified; the buffer is given back once, after the last record
//! or after the first failure, and never read again.

use vstd::prelude::*;
use crate::protocol::{
    acquisitions,
    follows,
    granted,
    grants,
    is_run,
    lemma_finished_run_is_balanced,
    lemma_winding_down,
    refusal,
    releases,
    AccountRecord,
    Action,
    Event,
    Field,
    Ledger,
    LedgerView,
    Move,
    Platform,
    Resource,
    ScanError,
    NERR_SUCCESS,
};

verus! {

/// Level of detail asked of the enumeration: name, privilege and flags.
pub const ACCOUNT_LEVEL: u32 = 1;

/// Filter that leaves only the normal accounts in the enumeration.
pub const FILTER_NORMAL_ACCOUNT: u32 = 2;

/// Flag bit of a disabled account.
pub const UF_ACCOUNTDISABLE: u32 = 2;

/// Privilege level of a guest.
pub const USER_PRIV_GUEST: u32 = 0;

/// Privilege level of a standard user.
pub const USER_PRIV_USER: u32 = 1;

/// Privilege level of an administrator.
pub const USER_PRIV_ADMIN: u32 = 2;

/// The privilege level of an account.
#[derive(Clone, Copy, Debug, PartialEq, Eq, Structural)]
pub enum Privilege {
    Administrator,
    StandardUser,
    Guest,
    Unknown,
}

/// One local account.
#[derive(Debug)]
pub struct UserAccountInfo {
    pub username: String,
    pub privilege: Privilege,
    pub is_enabled: bool,
    pub is_admin: bool,
}

/// The local accounts and what they add up to.
#[derive(Debug)]
pub struct UserAccountSummary {
    pub total_users: usize,
    pub enabled_users: usize,
    pub admin_count: usize,
    pub guest_enabled: bool,
    pub accounts: Vec<UserAccountInfo>,
}

/// Mathematical model of a [`UserAccountInfo`].
pub struct AccountView {
    pub username: Seq<char>,
    pub privilege: Privilege,
    pub is_enabled: bool,
    pub is_admin: bool,
}

impl View for UserAccountInfo {
    type V = AccountView;

    open spec fn view(&self) -> AccountView {
        AccountView {
            username: self.username@,
            privilege: self.privilege,
            is_enabled: self.is_enabled,
            is_admin: self.is_admin,
        }
    }
}

/// The models of a list of accounts, in order.
pub open spec fn account_views(accounts: Seq<UserAccountInfo>) -> Seq<AccountView> {
    accounts.map_values(|a: UserAccountInfo| a@)
}

/// Mathematical model of a [`UserAccountSummary`].
pub struct SummaryView {
    pub total_users: nat,
    pub enabled_users: nat,
    pub admin_count: nat,
    pub guest_enabled: bool,
    pub accounts: Seq<AccountView>,
}

impl View for UserAccountSummary {
    type V = SummaryView;

    open spec fn view(&self) -> SummaryView {
        SummaryView {
            total_users: self.total_users as nat,
            enabled_users: self.enabled_users as nat,
            admin_count: self.admin_count as nat,
            guest_enabled: self.guest_enabled,
            accounts: account_views(self.accounts@),
        }
    }
}

/// The privilege that a level stands for; a level other than the three
/// known ones is unknown.
pub open spec fn privilege_of(level: u32) -> Privilege {
    if level == USER_PRIV_ADMIN {
        Privilege::Administrator
    } else if level == USER_PRIV_USER {
        Privilege::StandardUser
    } else if level == USER_PRIV_GUEST {
        Privilege::Guest
    } else {
        Privilege::Unknown
    }
}

/// The account that a record describes: enabled unless the disable bit is
/// set in its flags, an administrator exactly at the administrator level.
pub open spec fn account_of(record: AccountRecord) -> AccountView {
    AccountView {
        username: record.name@,
        privilege: privilege_of(record.privilege),
        is_enabled: record.flags & UF_ACCOUNTDISABLE == 0,
        is_admin: record.privilege == USER_PRIV_ADMIN,
    }
}

impl Privilege {
    /// The name a privilege goes by in reports.
    pub fn label(&self) -> (text: String)
        ensures
            text@ == (match *self {
                Privilege::Administrator => "Administrator"@,
                Privilege::StandardUser => "Standard User"@,
                Privilege::Guest => "Guest"@,
                Privilege::Unknown => "Unknown"@,
            }),
    {
        match self {
            Privilege::Administrator => "Administrator".to_string(),
            Privilege::StandardUser => "Standard User".to_string(),
            Privilege::Guest => "Guest".to_string(),
            Privilege::Unknown => "Unknown".to_string(),
        }
    }
}

impl UserAccountInfo {
    /// Classifies an account by its privilege level and its flags.
    pub fn describe(username: String, level: u32, flags: u32) -> (account: UserAccountInfo)
        ensures
            account@ == (AccountView {
                username: username@,
                privilege: privilege_of(level),
                is_enabled: flags & UF_ACCOUNTDISABLE == 0,
                is_admin: level == USER_PRIV_ADMIN,
            }),
    {
        let privilege = if level == USER_PRIV_ADMIN {
            Privilege::Administrator
        } else if level == USER_PRIV_USER {
            Privilege::StandardUser
        } else if level == USER_PRIV_GUEST {
            Privilege::Guest
        } else {
            Privilege::Unknown
        };
        UserAccountInfo {
            username,
            privilege,
            is_enabled: flags & UF_ACCOUNTDISABLE == 0,
            is_admin: level == USER_PRIV_ADMIN,
        }
    }

    /// Classifies one record of the enumeration buffer.
    pub fn from_record(record: AccountRecord) -> (account: UserAccountInfo)
        ensures
            account@ == account_of(record),
    {
        UserAccountInfo::describe(record.name, record.privilege, record.flags)
    }
}

/// True for the five letters of "guest" in either case.
pub open spec fn is_guest_name(name: Seq<char>) -> bool {
    &&& name.len() == 5
    &&& (name[0] == 'g' || name[0] == 'G')
    &&& (name[1] == 'u' || name[1] == 'U')
    &&& (name[2] == 'e' || name[2] == 'E')
    &&& (name[3] == 's' || name[3] == 'S')
    &&& (name[4] == 't' || name[4] == 'T')
}

/// Tells whether a name equals "guest" when case is ignored.
pub fn names_guest(name: &str) -> (yes: bool)
    ensures
        yes == is_guest_name(name@),
{
    if name.unicode_len() != 5 {
        return false;
    }
    let c0 = name.get_char(0);
    let c1 = name.get_char(1);
    let c2 = name.get_char(2);
    let c3 = name.get_char(3);
    let c4 = name.get_char(4);
    (c0 == 'g' || c0 == 'G') && (c1 == 'u' || c1 == 'U') && (c2 == 'e' || c2 == 'E') && (c3 == 's'
        || c3 == 'S') && (c4 == 't' || c4 == 'T')
}

/// The number of enabled accounts in the list.
pub open spec fn enabled_count(accounts: Seq<AccountView>) -> nat
    decreases accounts.len(),
{
    if accounts.len() == 0 {
        0
    } else {
        enabled_count(accounts.drop_last()) + if accounts.last().is_enabled {
            1nat
        } else {
            0nat
        }
    }
}

/// The number of administrators in the list.
pub open spec fn admin_count(accounts: Seq<AccountView>) -> nat
    decreases accounts.len(),
{
    if accounts.len() == 0 {
        0
    } else {
        admin_count(accounts.drop_last()) + if accounts.last().is_admin {
            1nat
        } else {
            0nat
        }
    }
}

/// The guest risk: some account named "guest", in whatever case, is enabled.
pub open spec fn guest_enabled(accounts: Seq<AccountView>) -> bool {
    exists|i: int|
        0 <= i < accounts.len() && is_guest_name(#[trigger] accounts[i].username)
            && accounts[i].is_enabled
}

/// The summary of a list of accounts of which the enumeration read `total`.
pub open spec fn summary_of(accounts: Seq<AccountView>, total: nat) -> SummaryView {
    SummaryView {
        total_users: total,
        enabled_users: enabled_count(accounts),
        admin_count: admin_count(accounts),
        guest_enabled: guest_enabled(accounts),
        accounts,
    }
}

/// Sums up a list of accounts.
pub fn summarize(accounts: Vec<UserAccountInfo>, total: usize) -> (summary: UserAccountSummary)
    ensures
        summary@ == summary_of(account_views(accounts@), total as nat),
{
    let mut enabled_users: usize = 0;
    let mut admins: usize = 0;
    let mut guest = false;
    let mut i: usize = 0;
    let ghost views = account_views(accounts@);
    while i < accounts.len()
        invariant
            i <= accounts.len(),
            views == account_views(accounts@),
            enabled_users <= i,
            admins <= i,
            enabled_users == enabled_count(views.take(i as int)),
            admins == admin_count(views.take(i as int)),
            guest == guest_enabled(views.take(i as int)),
        decreases accounts.len() - i,
    {
        let account = &accounts[i];
        let named_guest = names_guest(account.username.as_str());
        proof {
            let before = views.take(i as int);
            let now = views.take(i + 1);
            assert(now.drop_last() =~= before);
            assert(now.last() == account@);
            if guest_enabled(before) {
                let k = choose|k: int|
                    0 <= k < before.len() && is_guest_name(#[trigger] before[k].username)
                        && before[k].is_enabled;
                assert(now[k] == before[k]);
            }
            if guest_enabled(now) && !(named_guest && account.is_enabled) {
                let k = choose|k: int|
                    0 <= k < now.len() && is_guest_name(#[trigger] now[k].username)
                        && now[k].is_enabled;
                assert(before[k] == now[k]);
            }
            if named_guest && account.is_enabled {
                assert(is_guest_name(now[i as int].username) && now[i as int].is_enabled);
            }
        }
        if account.is_enabled {
            enabled_users = enabled_users + 1;
        }
        if account.is_admin {
            admins = admins + 1;
        }
        if named_guest && account.is_enabled {
            guest = true;
        }
        i = i + 1;
    }
    proof {
        assert(views.take(accounts.len() as int) =~= views);
    }
    UserAccountSummary {
        total_users: total,
        enabled_users,
        admin_count: admins,
        guest_enabled: guest,
        accounts,
    }
}

/// An account enumeration in progress.
#[derive(Debug)]
pub struct AccountScan {
    ledger: Ledger,
    /// Number of records that the enumeration read into the buffer.
    total: u32,
    accounts: Vec<UserAccountInfo>,
}

/// Mathematical model of an [`AccountScan`].
pub struct AccountScanView {
    pub ledger: LedgerView,
    pub total: u32,
    pub accounts: Seq<AccountView>,
}

impl View for AccountScan {
    type V = AccountScanView;

    closed spec fn view(&self) -> AccountScanView {
        AccountScanView {
            ledger: self.ledger@,
            total: self.total,
            accounts: account_views(self.accounts@),
        }
    }
}

impl AccountScanView {
    /// The scan before the first answer: the accounts are to be enumerated,
    /// or, on a host that cannot be scanned, the scan is over at once.
    pub open spec fn begin(platform: Platform) -> AccountScanView {
        AccountScanView {
            ledger: if platform == Platform::Windows {
                LedgerView::begin(Action::Acquire(Resource::Buffer))
            } else {
                LedgerView::refuse(ScanError::NotWindows)
            },
            total: 0,
            accounts: Seq::empty(),
        }
    }

    /// The scan that answers `event` by failing.
    pub open spec fn failed(self, event: Event) -> AccountScanView {
        AccountScanView {
            ledger: self.ledger.absorb(event).fail(refusal(self.ledger.pending, event)),
            ..self
        }
    }

    /// What the scan asks for once the record before index `index` has been
    /// read: that record, or, past the last one, to wind down.
    pub open spec fn proceed(ledger: LedgerView, index: int, total: u32) -> LedgerView {
        if index < total {
            ledger.request(Action::Read(Field::Account(index as u32)))
        } else {
            ledger.close()
        }
    }

    /// The answer to the enumeration: with the buffer filled the first
    /// record is read, or the scan winds down where there is none; an
    /// enumeration that failed fails the scan.
    pub open spec fn on_buffer(self, event: Event) -> AccountScanView {
        match event {
            Event::Enumerated(_, entries) => if grants(self.ledger.pending, event) is Some {
                AccountScanView {
                    ledger: Self::proceed(self.ledger.absorb(event), 0, entries),
                    total: entries,
                    ..self
                }
            } else {
                self.failed(event)
            },
            _ => self.failed(event),
        }
    }

    /// The answer to the read of a record: the account it describes joins
    /// the list and the next record is asked for.
    pub open spec fn on_record(self, index: u32, event: Event) -> AccountScanView {
        match event {
            Event::Account(record) => AccountScanView {
                ledger: Self::proceed(self.ledger.absorb(event), index + 1, self.total),
                accounts: self.accounts.push(account_of(record)),
                ..self
            },
            _ => self.failed(event),
        }
    }

    /// The scan after the caller has answered the pending action with `event`.
    pub open spec fn next(self, event: Event) -> AccountScanView {
        if self.ledger.closing {
            AccountScanView { ledger: self.ledger.absorb(event).release_next(), ..self }
        } else {
            match self.ledger.pending {
                Action::Acquire(Resource::Buffer) => self.on_buffer(event),
                Action::Read(Field::Account(index)) => self.on_record(index, event),
                _ => self.failed(event),
            }
        }
    }

    /// The scan after the caller has given all of `events`, in order.
    pub open spec fn after(self, events: Seq<Event>) -> AccountScanView
        decreases events.len(),
    {
        if events.len() == 0 {
            self
        } else {
            self.after(events.drop_last()).next(events.last())
        }
    }

    /// The ledgers the scan goes through while it is given `events`.
    pub open spec fn ledgers(self, events: Seq<Event>) -> Seq<LedgerView> {
        Seq::new((events.len() + 1) as nat, |i: int| self.after(events.take(i)).ledger)
    }

    /// What the scan returns: the first failure if there was one, the
    /// summary of the accounts if the scan is over, and a protocol error for
    /// a scan that is still under way.
    pub open spec fn outcome(self) -> Result<SummaryView, ScanError> {
        match self.ledger.failure {
            Some(error) => Err(error),
            None => if self.ledger.finished() {
                Ok(summary_of(self.accounts, self.total as nat))
            } else {
                Err(ScanError::Protocol(self.ledger.pending))
            },
        }
    }
}

/// Model of what the collector returns.
pub open spec fn summary_view(r: Result<UserAccountSummary, ScanError>) -> Result<
    SummaryView,
    ScanError,
> {
    match r {
        Ok(summary) => Ok(summary@),
        Err(error) => Err(error),
    }
}

impl AccountScan {
    /// The action that the caller has to answer next.
    pub fn pending(&self) -> (action: Action)
        ensures
            action == self@.ledger.pending,
    {
        self.ledger.pending()
    }

    /// The bookkeeping of the scan.
    pub fn ledger(&self) -> (ledger: &Ledger)
        ensures
            ledger@ == self@.ledger,
    {
        &self.ledger
    }

    /// The move that turns to the record at `index`, or winds down past the
    /// last one.
    fn turn_to(&self, index: u32) -> (step: Move)
        ensures
            step == if index < self@.total {
                Move::Ask(Action::Read(Field::Account(index)))
            } else {
                Move::WindDown
            },
    {
        if index < self.total {
            Move::Ask(Action::Read(Field::Account(index)))
        } else {
            Move::WindDown
        }
    }

    fn note_total(&mut self, entries: u32)
        ensures
            final(self)@ == (AccountScanView { total: entries, ..old(self)@ }),
    {
        self.total = entries;
    }

    fn add_account(&mut self, record: &AccountRecord)
        ensures
            final(self)@ == (AccountScanView {
                accounts: old(self)@.accounts.push(account_of(*record)),
                ..old(self)@
            }),
    {
        let account = UserAccountInfo::describe(
            record.name.clone(),
            record.privilege,
            record.flags,
        );
        proof {
            assert(account_views(self.accounts@.push(account)) =~= account_views(
                self.accounts@,
            ).push(account@));
        }
        self.accounts.push(account);
    }

    fn step_buffer(&mut self, event: Event) -> (action: Action)
        ensures
            final(self)@ == old(self)@.on_buffer(event),
            action == final(self)@.ledger.pending,
    {
        let grant = granted(self.ledger.pending(), &event);
        match &event {
            Event::Enumerated(_, entries) => match grant {
                Some(_) => {
                    self.note_total(*entries);
                    let step = self.turn_to(0);
                    self.ledger.make(&event, step)
                },
                None => self.ledger.make(&event, Move::Fail),
            },
            _ => self.ledger.make(&event, Move::Fail),
        }
    }

    fn step_record(&mut self, index: u32, event: Event) -> (action: Action)
        ensures
            final(self)@ == old(self)@.on_record(index, event),
            action == final(self)@.ledger.pending,
    {
        match &event {
            Event::Account(record) => {
                self.add_account(record);
                let step = if index < self.total {
                    self.turn_to(index + 1)
                } else {
                    Move::WindDown
                };
                self.ledger.make(&event, step)
            },
            _ => self.ledger.make(&event, Move::Fail),
        }
    }

    /// Takes the caller's answer to the pending action and says what to do
    /// next.
    pub fn step(&mut self, event: Event) -> (action: Action)
        ensures
            final(self)@ == old(self)@.next(event),
            action == final(self)@.ledger.pending,
    {
        if self.ledger.is_closing() {
            return self.ledger.make(&event, Move::GiveBack);
        }
        match self.ledger.pending() {
            Action::Acquire(Resource::Buffer) => self.step_buffer(event),
            Action::Read(Field::Account(index)) => self.step_record(index, event),
            _ => self.ledger.make(&event, Move::Fail),
        }
    }

    /// Ends the scan and hands out the summary of the accounts it read.
    pub fn finish(self) -> (r: Result<UserAccountSummary, ScanError>)
        ensures
            summary_view(r) == self@.outcome(),
    {
        match self.ledger.failure() {
            Some(error) => Err(error),
            None => match self.ledger.pending() {
                Action::Finish => Ok(summarize(self.accounts, self.total as usize)),
                pending => Err(ScanError::Protocol(pending)),
            },
        }
    }
}

/// Begins a scan of the local user accounts. The scan asks for the
/// enumeration first; on a host other than Windows it is over at once with
/// [`ScanError::NotWindows`] and asks for nothing.
pub fn scan_uas(platform: Platform) -> (scan: AccountScan)
    ensures
        scan@ == AccountScanView::begin(platform),
{
    let ledger = match platform {
        Platform::Windows => Ledger::begin(Action::Acquire(Resource::Buffer)),
        Platform::Other => Ledger::refuse(ScanError::NotWindows),
    };
    let scan = AccountScan { ledger, total: 0, accounts: Vec::new() };
    assert(account_views(scan.accounts@) =~= Seq::empty());
    scan
}

/// Every step of a scan is honest bookkeeping.
pub proof fn lemma_step_follows(scan: AccountScanView, event: Event)
    ensures
        follows(scan.ledger, event, scan.next(event).ledger),
{
}

/// The ledgers of a scan form a run, whatever the caller answers.
pub proof fn lemma_scan_is_run(platform: Platform, events: Seq<Event>)
    ensures
        is_run(AccountScanView::begin(platform).ledgers(events), events),
{
    let start = AccountScanView::begin(platform);
    let ledgers = start.ledgers(events);
    assert(events.take(0) =~= Seq::empty());
    assert forall|i: int| 0 <= i < events.len() implies follows(
        #[trigger] ledgers[i],
        events[i],
        ledgers[i + 1],
    ) by {
        let before = start.after(events.take(i));
        assert(events.take(i + 1).drop_last() =~= events.take(i));
        assert(events.take(i + 1).last() == events[i]);
        lemma_step_follows(before, events[i]);
    }
}

/// A scan that has come to its end has given the buffer back exactly as
/// often as it was handed one, whether it succeeded or failed and whatever
/// the caller answered on the way.
pub proof fn lemma_finished_scan_is_balanced(platform: Platform, events: Seq<Event>)
    requires
        AccountScanView::begin(platform).after(events).ledger.finished(),
    ensures
        acquisitions(AccountScanView::begin(platform).ledgers(events), events, events.len())
            == releases(AccountScanView::begin(platform).ledgers(events), events.len()),
{
    lemma_scan_is_run(platform, events);
    assert(events.take(events.len() as int) =~= events);
    lemma_finished_run_is_balanced(AccountScanView::begin(platform).ledgers(events), events);
}

/// The guest risk of a list with one more account: it was there before, or
/// the new account is an enabled guest.
pub proof fn lemma_guest_enabled_push(accounts: Seq<AccountView>, account: AccountView)
    ensures
        guest_enabled(accounts.push(account)) <==> guest_enabled(accounts) || (is_guest_name(
            account.username,
        ) && account.is_enabled),
{
    let longer = accounts.push(account);
    if guest_enabled(accounts) {
        let k = choose|k: int|
            0 <= k < accounts.len() && is_guest_name(#[trigger] accounts[k].username)
                && accounts[k].is_enabled;
        assert(longer[k] == accounts[k]);
    }
    if is_guest_name(account.username) && account.is_enabled {
        assert(longer[accounts.len() as int] == account);
    }
    if guest_enabled(longer) {
        let k = choose|k: int|
            0 <= k < longer.len() && is_guest_name(#[trigger] longer[k].username)
                && longer[k].is_enabled;
        if k < accounts.len() {
            assert(accounts[k] == longer[k]);
        }
    }
}

/// Where no account is named "guest", the guest risk is absent.
pub proof fn lemma_no_guest_no_risk(accounts: Seq<AccountView>)
    requires
        forall|i: int| 0 <= i < accounts.len() ==> !is_guest_name(#[trigger] accounts[i].username),
    ensures
        !guest_enabled(accounts),
{
}

/// While it winds down, a scan does nothing but give back what it
/// holds: its ledger is the one that unwinding alone leads to, so the scan
/// is over after one answer per resource held and one more.
pub proof fn lemma_winding_down_is_unwinding(scan: AccountScanView, events: Seq<Event>)
    requires
        scan.ledger.winding_down(),
    ensures
        scan.after(events).ledger == scan.ledger.unwound(events),
        events.len() > scan.ledger.held.len() ==> scan.after(events).ledger.finished(),
    decreases events.len(),
{
    lemma_winding_down(scan.ledger, events);
    if events.len() > 0 {
        lemma_winding_down_is_unwinding(scan, events.drop_last());
        lemma_winding_down(scan.ledger, events.drop_last());
    }
}

/// Whatever the caller answers, a scan that has begun to wind down
/// has told the caller so.
pub proof fn lemma_scan_is_coherent(platform: Platform, events: Seq<Event>)
    ensures
        AccountScanView::begin(platform).after(events).ledger.coherent(),
    decreases events.len(),
{
    if events.len() > 0 {
        lemma_scan_is_coherent(platform, events.drop_last());
    }
}

impl AccountScanView {
    /// A scan that is not winding down either waits for the enumeration and
    /// holds nothing, or holds the buffer and waits for a record that lies
    /// inside it; a scan that is winding down has told the caller so and
    /// holds at most the buffer.
    pub open spec fn shaped(self) -> bool {
        &&& self.ledger.held.len() <= 1
        &&& self.ledger.held.len() == 1 ==> self.ledger.held[0] == Resource::Buffer
        &&& self.ledger.closing ==> self.ledger.winding_down()
        &&& !self.ledger.closing ==> match self.ledger.pending {
            Action::Acquire(Resource::Buffer) => self.ledger.held.len() == 0
                && self.accounts.len() == 0,
            Action::Read(Field::Account(index)) => self.ledger.held.len() == 1 && index
                < self.total && index == self.accounts.len(),
            _ => false,
        }
    }
}

/// One answer leaves a scan in shape.
pub proof fn lemma_step_keeps_shape(scan: AccountScanView, event: Event)
    requires
        scan.shaped(),
    ensures
        scan.next(event).shaped(),
{
    reveal(grants);
}

/// Whatever the caller answers, a scan stays in shape: a record is asked for
/// only while the buffer is held and only at an index below the number of
/// records read, so the buffer is never read after it was given back nor
/// past its end.
pub proof fn lemma_scan_is_shaped(platform: Platform, events: Seq<Event>)
    ensures
        AccountScanView::begin(platform).after(events).shaped(),
    decreases events.len(),
{
    if events.len() > 0 {
        lemma_scan_is_shaped(platform, events.drop_last());
        lemma_step_keeps_shape(
            AccountScanView::begin(platform).after(events.drop_last()),
            events.last(),
        );
    }
}

/// A scan that ends without a failure has read every record of the buffer:
/// the summary lists as many accounts as the enumeration read.
pub proof fn lemma_success_lists_every_record(platform: Platform, events: Seq<Event>)
    requires
        AccountScanView::begin(platform).after(events).outcome() is Ok,
    ensures
        AccountScanView::begin(platform).after(events).accounts.len()
            == AccountScanView::begin(platform).after(events).total,
{
    lemma_every_record_is_listed(platform, events);
}

/// Whatever the caller answers, a scan has listed one account per record it
/// has read so far, and once it winds down without a failure it has read
/// them all.
pub proof fn lemma_every_record_is_listed(platform: Platform, events: Seq<Event>)
    ensures
        AccountScanView::begin(platform).after(events).shaped(),
        AccountScanView::begin(platform).after(events).accounts.len()
            <= AccountScanView::begin(platform).after(events).total,
        AccountScanView::begin(platform).after(events).ledger.closing
            && AccountScanView::begin(platform).after(events).ledger.failure is None
            ==> AccountScanView::begin(platform).after(events).accounts.len()
            == AccountScanView::begin(platform).after(events).total,
    decreases events.len(),
{
    reveal(grants);
    if events.len() > 0 {
        lemma_every_record_is_listed(platform, events.drop_last());
        lemma_step_keeps_shape(
            AccountScanView::begin(platform).after(events.drop_last()),
            events.last(),
        );
    }
}

/// The answers of a subsystem that hands out these records one after
/// another.
pub open spec fn record_answers(records: Seq<AccountRecord>) -> Seq<Event> {
    Seq::new(records.len(), |i: int| Event::Account(records[i]))
}

/// The accounts that these records describe, in order.
pub open spec fn accounts_of(records: Seq<AccountRecord>) -> Seq<AccountView> {
    Seq::new(records.len(), |i: int| account_of(records[i]))
}

/// A scan with the buffer filled by an enumeration that read `total`
/// records.
pub open spec fn enumerated(total: u32) -> AccountScanView {
    AccountScanView::begin(Platform::Windows).next(Event::Enumerated(NERR_SUCCESS, total))
}

/// While records are left, each answer adds the account that its record
/// describes and the scan asks for the next record; after the last one it
/// asks the buffer back.
pub proof fn lemma_records_become_accounts(records: Seq<AccountRecord>, total: u32, read: nat)
    requires
        records.len() == total,
        read <= total,
    ensures
        enumerated(total).after(record_answers(records.take(read as int))).total == total,
        enumerated(total).after(record_answers(records.take(read as int))).accounts
            == accounts_of(records.take(read as int)),
        enumerated(total).after(record_answers(records.take(read as int))).ledger.failure is None,
        read < total ==> !enumerated(total).after(
            record_answers(records.take(read as int)),
        ).ledger.closing,
        read < total ==> enumerated(total).after(
            record_answers(records.take(read as int)),
        ).ledger.pending == Action::Read(Field::Account(read as u32)),
        read < total ==> enumerated(total).after(
            record_answers(records.take(read as int)),
        ).ledger.held.len() == 1,
        read < total ==> enumerated(total).after(
            record_answers(records.take(read as int)),
        ).ledger.held[0] == Resource::Buffer,
        read == total ==> enumerated(total).after(
            record_answers(records.take(read as int)),
        ).ledger.closing,
        read == total ==> enumerated(total).after(
            record_answers(records.take(read as int)),
        ).ledger.pending == Action::Release(Resource::Buffer),
        read == total ==> enumerated(total).after(
            record_answers(records.take(read as int)),
        ).ledger.held.len() == 0,
    decreases read,
{
    reveal(grants);
    let start = enumerated(total);
    let opening = AccountScanView::begin(Platform::Windows);
    assert(opening.ledger.held.push(Resource::Buffer).len() == 1);
    assert(opening.ledger.held.push(Resource::Buffer).drop_last() =~= opening.ledger.held);
    assert(start == opening.on_buffer(Event::Enumerated(NERR_SUCCESS, total)));
    if read == 0 {
        assert(record_answers(records.take(0)) =~= Seq::empty());
        assert(accounts_of(records.take(0)) =~= Seq::empty());
        assert(start.accounts =~= Seq::empty());
    } else {
        let before = (read - 1) as nat;
        lemma_records_become_accounts(records, total, before);
        let earlier = record_answers(records.take(before as int));
        let answer = Event::Account(records[before as int]);
        assert(record_answers(records.take(read as int)) =~= earlier.push(answer));
        assert(earlier.push(answer).drop_last() =~= earlier);
        let previous = start.after(earlier);
        let now = previous.next(answer);
        assert(start.after(earlier.push(answer)) == now);
        assert(now == previous.on_record(before as u32, answer));
        assert(previous.ledger.held.drop_last().len() == 0);
        assert(accounts_of(records.take(read as int)) =~= accounts_of(
            records.take(before as int),
        ).push(account_of(records[before as int])));
    }
}

/// What an account scan returns when nothing fails: the enumeration fills
/// the buffer, every record is read, and the buffer is given back. One
/// answer later the scan is over, and its result is the summary of the
/// accounts that the records describe, one per record and in their order.
pub proof fn lemma_scan_returns_the_records(
    records: Seq<AccountRecord>,
    total: u32,
    released: Event,
)
    requires
        records.len() == total,
    ensures
        enumerated(total).after(record_answers(records)).next(released).outcome() == Ok::<
            SummaryView,
            ScanError,
        >(summary_of(accounts_of(records), total as nat)),
{
    reveal(grants);
    lemma_records_become_accounts(records, total, total as nat);
    assert(records.take(total as int) =~= records);
}

} // verus!
