//! The firewall collector: the three profiles of the built-in firewall, and
//! the registered third-party firewall products.
//!
//! The two sources are reported side by side and never merged: whether a host
//! counts as protected is a rule over both, stated by [`is_protected`].

use vstd::prelude::*;
use crate::antivirus::{product_views, ProductInfo, ProductView};
use crate::protocol::{Action, Event, Field, Platform, Profile, Resource, ScanError, Setting};
use crate::security_center::{Family, ProductScan, ScanView};
use crate::status::activity_bits;

verus! {

/// The boolean that the policy interface reports for "yes".
pub const VARIANT_TRUE: i16 = -1;

/// The default action that blocks traffic.
pub const NET_FW_ACTION_BLOCK: i32 = 0;

/// Identifier of the domain profile.
pub const NET_FW_PROFILE2_DOMAIN: i32 = 1;

/// Identifier of the private profile.
pub const NET_FW_PROFILE2_PRIVATE: i32 = 2;

/// Identifier of the public profile.
pub const NET_FW_PROFILE2_PUBLIC: i32 = 4;

/// The state of one profile of the built-in firewall.
#[derive(Clone, Copy, Debug, PartialEq, Eq, Structural)]
pub struct FirewallProfileDetails {
    pub profile_enabled: bool,
    pub inbound_blocked: bool,
    pub outbound_blocked: bool,
    pub notifications_disabled: bool,
}

/// The state of the built-in firewall, profile by profile.
#[derive(Clone, Copy, Debug, PartialEq, Eq, Structural)]
pub struct WindowsFirewallProfile {
    pub public: FirewallProfileDetails,
    pub private: FirewallProfileDetails,
    pub domain: FirewallProfileDetails,
}

/// A registered third-party firewall product.
pub type FirewallProductInfo = ProductInfo;

/// Where the product list came from.
#[derive(Debug)]
pub struct ModuleInfo {
    pub namespace: String,
    pub query: String,
}

/// The identifier under which the policy interface knows a profile.
pub fn profile_id(profile: Profile) -> (id: i32)
    ensures
        id == (match profile {
            Profile::Public => NET_FW_PROFILE2_PUBLIC,
            Profile::Private => NET_FW_PROFILE2_PRIVATE,
            Profile::Domain => NET_FW_PROFILE2_DOMAIN,
        }),
{
    match profile {
        Profile::Public => NET_FW_PROFILE2_PUBLIC,
        Profile::Private => NET_FW_PROFILE2_PRIVATE,
        Profile::Domain => NET_FW_PROFILE2_DOMAIN,
    }
}

/// What an answer to a read of `setting` says, if it is of the right kind:
/// the two flags hold when they equal [`VARIANT_TRUE`], a direction is
/// blocked when its default action equals [`NET_FW_ACTION_BLOCK`].
pub open spec fn reading(setting: Setting, event: Event) -> Option<bool> {
    match (setting, event) {
        (Setting::Enabled, Event::Flag(flag)) => Some(flag == VARIANT_TRUE),
        (Setting::NotificationsDisabled, Event::Flag(flag)) => Some(flag == VARIANT_TRUE),
        (Setting::InboundAction, Event::Long(action)) => Some(action == NET_FW_ACTION_BLOCK),
        (Setting::OutboundAction, Event::Long(action)) => Some(action == NET_FW_ACTION_BLOCK),
        _ => None,
    }
}

/// Exec counterpart of [`reading`].
pub fn read_setting(setting: Setting, event: &Event) -> (value: Option<bool>)
    ensures
        value == reading(setting, *event),
{
    match setting {
        Setting::Enabled => match event {
            Event::Flag(flag) => Some(*flag == VARIANT_TRUE),
            _ => None,
        },
        Setting::NotificationsDisabled => match event {
            Event::Flag(flag) => Some(*flag == VARIANT_TRUE),
            _ => None,
        },
        Setting::InboundAction => match event {
            Event::Long(action) => Some(*action == NET_FW_ACTION_BLOCK),
            _ => None,
        },
        Setting::OutboundAction => match event {
            Event::Long(action) => Some(*action == NET_FW_ACTION_BLOCK),
            _ => None,
        },
    }
}

impl FirewallProfileDetails {
    /// A profile of which nothing has been read yet.
    pub open spec fn unread() -> FirewallProfileDetails {
        FirewallProfileDetails {
            profile_enabled: false,
            inbound_blocked: false,
            outbound_blocked: false,
            notifications_disabled: false,
        }
    }

    /// The profile with one setting replaced.
    pub open spec fn with(self, setting: Setting, value: bool) -> FirewallProfileDetails {
        match setting {
            Setting::Enabled => FirewallProfileDetails { profile_enabled: value, ..self },
            Setting::InboundAction => FirewallProfileDetails { inbound_blocked: value, ..self },
            Setting::OutboundAction => FirewallProfileDetails { outbound_blocked: value, ..self },
            Setting::NotificationsDisabled => FirewallProfileDetails {
                notifications_disabled: value,
                ..self
            },
        }
    }

    /// Replaces one setting.
    pub fn set(&mut self, setting: Setting, value: bool)
        ensures
            *final(self) == old(self).with(setting, value),
    {
        match setting {
            Setting::Enabled => {
                self.profile_enabled = value;
            },
            Setting::InboundAction => {
                self.inbound_blocked = value;
            },
            Setting::OutboundAction => {
                self.outbound_blocked = value;
            },
            Setting::NotificationsDisabled => {
                self.notifications_disabled = value;
            },
        }
    }
}

impl WindowsFirewallProfile {
    /// A firewall of which nothing has been read yet.
    pub open spec fn unread() -> WindowsFirewallProfile {
        WindowsFirewallProfile {
            public: FirewallProfileDetails::unread(),
            private: FirewallProfileDetails::unread(),
            domain: FirewallProfileDetails::unread(),
        }
    }

    /// A firewall of which nothing has been read yet: every flag is off.
    pub fn new() -> (profiles: WindowsFirewallProfile)
        ensures
            profiles == WindowsFirewallProfile::unread(),
    {
        let unread = FirewallProfileDetails {
            profile_enabled: false,
            inbound_blocked: false,
            outbound_blocked: false,
            notifications_disabled: false,
        };
        WindowsFirewallProfile { public: unread, private: unread, domain: unread }
    }

    /// The firewall with one setting of one profile replaced.
    pub open spec fn with(self, profile: Profile, setting: Setting, value: bool) -> WindowsFirewallProfile {
        match profile {
            Profile::Public => WindowsFirewallProfile {
                public: self.public.with(setting, value),
                ..self
            },
            Profile::Private => WindowsFirewallProfile {
                private: self.private.with(setting, value),
                ..self
            },
            Profile::Domain => WindowsFirewallProfile {
                domain: self.domain.with(setting, value),
                ..self
            },
        }
    }

    /// Replaces one setting of one profile.
    pub fn set(&mut self, profile: Profile, setting: Setting, value: bool)
        ensures
            *final(self) == old(self).with(profile, setting, value),
    {
        match profile {
            Profile::Public => self.public.set(setting, value),
            Profile::Private => self.private.set(setting, value),
            Profile::Domain => self.domain.set(setting, value),
        }
    }

    /// True when at least one profile is enabled.
    pub fn any_enabled(&self) -> (any: bool)
        ensures
            any == (self.public.profile_enabled || self.private.profile_enabled
                || self.domain.profile_enabled),
    {
        self.public.profile_enabled || self.private.profile_enabled || self.domain.profile_enabled
    }
}

/// What the collector asks for once a setting of a profile has been read:
/// the settings of a profile in the order enabled, inbound, outbound,
/// notifications; the profiles in the order public, private, domain; and
/// after the last of them the way down to the product list.
pub open spec fn after_reading(profile: Profile, setting: Setting) -> Action {
    match setting {
        Setting::Enabled => Action::Read(Field::Firewall(profile, Setting::InboundAction)),
        Setting::InboundAction => Action::Read(Field::Firewall(profile, Setting::OutboundAction)),
        Setting::OutboundAction => Action::Read(
            Field::Firewall(profile, Setting::NotificationsDisabled),
        ),
        Setting::NotificationsDisabled => match profile {
            Profile::Public => Action::Read(Field::Firewall(Profile::Private, Setting::Enabled)),
            Profile::Private => Action::Read(Field::Firewall(Profile::Domain, Setting::Enabled)),
            Profile::Domain => Action::Acquire(Resource::Locator),
        },
    }
}

/// Exec counterpart of [`after_reading`].
pub fn next_reading(profile: Profile, setting: Setting) -> (action: Action)
    ensures
        action == after_reading(profile, setting),
{
    match setting {
        Setting::Enabled => Action::Read(Field::Firewall(profile, Setting::InboundAction)),
        Setting::InboundAction => Action::Read(Field::Firewall(profile, Setting::OutboundAction)),
        Setting::OutboundAction => Action::Read(
            Field::Firewall(profile, Setting::NotificationsDisabled),
        ),
        Setting::NotificationsDisabled => match profile {
            Profile::Public => Action::Read(Field::Firewall(Profile::Private, Setting::Enabled)),
            Profile::Private => Action::Read(Field::Firewall(Profile::Domain, Setting::Enabled)),
            Profile::Domain => Action::Acquire(Resource::Locator),
        },
    }
}

/// Begins a scan of the built-in firewall's profiles and of the registered
/// third-party firewall products. On a host other than Windows the scan is
/// over at once with [`ScanError::NotWindows`] and asks for nothing.
pub fn scan_firewall(platform: Platform) -> (scan: ProductScan)
    ensures
        scan@ == ScanView::begin(Family::Firewall, platform),
{
    ProductScan::begin(Family::Firewall, platform)
}

/// True when the status code of some product in the list reports it active.
pub open spec fn any_active(products: Seq<ProductView>) -> bool {
    exists|i: int| 0 <= i < products.len() && activity_bits(#[trigger] products[i].state) != 0
}

/// The number of products in the list whose status code reports them active.
pub open spec fn active_count(products: Seq<ProductView>) -> nat
    decreases products.len(),
{
    if products.len() == 0 {
        0
    } else {
        let earlier = active_count(products.drop_last());
        if activity_bits(products.last().state) != 0 {
            earlier + 1
        } else {
            earlier
        }
    }
}

/// A list counts no active product exactly when none of its products is
/// active.
pub proof fn lemma_active_count_zero(products: Seq<ProductView>)
    ensures
        active_count(products) == 0 <==> !any_active(products),
    decreases products.len(),
{
    if products.len() > 0 {
        let front = products.drop_last();
        lemma_active_count_zero(front);
        if any_active(front) {
            let i = choose|i: int| 0 <= i < front.len() && activity_bits(front[i].state) != 0;
            assert(products[i] == front[i]);
        }
        if any_active(products) && activity_bits(products.last().state) == 0 {
            let i = choose|i: int|
                0 <= i < products.len() && activity_bits(
                    #[trigger] products[i].state,
                ) != 0;
            assert(front[i] == products[i]);
        }
    }
}

/// Counts the third-party firewalls that report themselves active.
pub fn count_active(products: &Vec<FirewallProductInfo>) -> (count: usize)
    ensures
        count == active_count(product_views(products@)),
{
    let mut count: usize = 0;
    let mut i: usize = 0;
    while i < products.len()
        invariant
            i <= products.len(),
            count <= i,
            count == active_count(product_views(products@).take(i as int)),
        decreases products.len() - i,
    {
        let active = crate::status::activity_field(products[i].state) != 0;
        proof {
            let views = product_views(products@);
            assert(views.take(i + 1).drop_last() =~= views.take(i as int));
            assert(views.take(i + 1).last() == products@[i as int]@);
        }
        if active {
            count = count + 1;
        }
        i = i + 1;
    }
    proof {
        let views = product_views(products@);
        assert(views.take(products.len() as int) =~= views);
    }
    count
}

/// The rule that combines the two sources: a host is protected when at least
/// one profile of the built-in firewall is enabled or at least one
/// third-party firewall is active.
pub open spec fn protected(profiles: WindowsFirewallProfile, products: Seq<ProductView>) -> bool {
    ||| profiles.public.profile_enabled
    ||| profiles.private.profile_enabled
    ||| profiles.domain.profile_enabled
    ||| any_active(products)
}

/// Decides whether the host is protected by any firewall.
pub fn is_protected(profiles: &WindowsFirewallProfile, products: &Vec<FirewallProductInfo>) -> (yes:
    bool)
    ensures
        yes == protected(*profiles, product_views(products@)),
{
    proof {
        lemma_active_count_zero(product_views(products@));
    }
    profiles.any_enabled() || count_active(products) > 0
}

/// Names the state of a profile.
pub fn firewall_enabled(info: &FirewallProfileDetails) -> (label: String)
    ensures
        label@ == if info.profile_enabled {
            "Enabled"@
        } else {
            "Disabled"@
        },
{
    if info.profile_enabled {
        "Enabled".to_string()
    } else {
        "Disabled".to_string()
    }
}

/// Names what a profile does with inbound traffic by default.
pub fn firewall_inbound(info: &FirewallProfileDetails) -> (label: String)
    ensures
        label@ == if info.inbound_blocked {
            "Blocked"@
        } else {
            "Allowed"@
        },
{
    if info.inbound_blocked {
        "Blocked".to_string()
    } else {
        "Allowed".to_string()
    }
}

/// Names what a profile does with outbound traffic by default.
pub fn firewall_outbound(info: &FirewallProfileDetails) -> (label: String)
    ensures
        label@ == if info.outbound_blocked {
            "Blocked"@
        } else {
            "Allowed"@
        },
{
    if info.outbound_blocked {
        "Blocked".to_string()
    } else {
        "Allowed".to_string()
    }
}

/// Names whether a profile shows notifications.
pub fn firewall_notifications(info: &FirewallProfileDetails) -> (label: String)
    ensures
        label@ == if info.notifications_disabled {
            "Off"@
        } else {
            "On"@
        },
{
    if info.notifications_disabled {
        "Off".to_string()
    } else {
        "On".to_string()
    }
}

/// What the profiles of the built-in firewall amount to.
#[derive(Clone, Copy, Debug, PartialEq, Eq, Structural)]
pub enum BuiltInVerdict {
    /// Every profile is disabled.
    AllDisabled,
    /// The public profile is disabled, though another one is not.
    PublicDisabled,
    /// The public profile is enabled.
    Enabled,
}

/// Which firewall, if any, stands between the host and the network.
#[derive(Clone, Copy, Debug, PartialEq, Eq, Structural)]
pub enum ActiveFirewall {
    /// No third-party firewall is active and every profile is disabled.
    Nothing,
    /// This many third-party firewalls are active.
    ThirdParty(usize),
    /// No third-party firewall is active; the built-in one is.
    BuiltIn,
}

/// The security assessment of a firewall scan.
#[derive(Clone, Copy, Debug, PartialEq, Eq, Structural)]
pub struct FirewallAssessment {
    pub built_in: BuiltInVerdict,
    /// The public profile is enabled but lets inbound traffic through.
    pub public_inbound_open: bool,
    pub active: ActiveFirewall,
}

/// The assessment of the two sources, each judged on its own and then
/// side by side.
pub open spec fn assessment_of(
    profiles: WindowsFirewallProfile,
    products: Seq<ProductView>,
) -> FirewallAssessment {
    let all_disabled = !profiles.public.profile_enabled && !profiles.private.profile_enabled
        && !profiles.domain.profile_enabled;
    FirewallAssessment {
        built_in: if all_disabled {
            BuiltInVerdict::AllDisabled
        } else if !profiles.public.profile_enabled {
            BuiltInVerdict::PublicDisabled
        } else {
            BuiltInVerdict::Enabled
        },
        public_inbound_open: profiles.public.profile_enabled && !profiles.public.inbound_blocked,
        active: if active_count(products) > 0 {
            ActiveFirewall::ThirdParty(active_count(products) as usize)
        } else if all_disabled {
            ActiveFirewall::Nothing
        } else {
            ActiveFirewall::BuiltIn
        },
    }
}

/// Assesses the firewall protection of the host.
pub fn assess_firewall(profiles: &WindowsFirewallProfile, products: &Vec<FirewallProductInfo>) -> (a:
    FirewallAssessment)
    ensures
        a == assessment_of(*profiles, product_views(products@)),
{
    let all_disabled = !profiles.any_enabled();
    let third_party = count_active(products);
    FirewallAssessment {
        built_in: if all_disabled {
            BuiltInVerdict::AllDisabled
        } else if !profiles.public.profile_enabled {
            BuiltInVerdict::PublicDisabled
        } else {
            BuiltInVerdict::Enabled
        },
        public_inbound_open: profiles.public.profile_enabled && !profiles.public.inbound_blocked,
        active: if third_party > 0 {
            ActiveFirewall::ThirdParty(third_party)
        } else if all_disabled {
            ActiveFirewall::Nothing
        } else {
            ActiveFirewall::BuiltIn
        },
    }
}

/// The host is protected exactly when the assessment finds a firewall in
/// the way.
pub proof fn lemma_protected_iff_some_firewall(
    profiles: WindowsFirewallProfile,
    products: Seq<ProductView>,
)
    ensures
        protected(profiles, products) <==> assessment_of(profiles, products).active
            != ActiveFirewall::Nothing,
{
    lemma_active_count_zero(products);
}

impl WindowsFirewallProfile {
    /// The firewall with one profile replaced.
    pub open spec fn replaced(
        self,
        profile: Profile,
        details: FirewallProfileDetails,
    ) -> WindowsFirewallProfile {
        match profile {
            Profile::Public => WindowsFirewallProfile { public: details, ..self },
            Profile::Private => WindowsFirewallProfile { private: details, ..self },
            Profile::Domain => WindowsFirewallProfile { domain: details, ..self },
        }
    }
}

/// Replacing the four settings of a profile one by one replaces the
/// profile.
pub proof fn lemma_four_settings_make_a_profile(
    profiles: WindowsFirewallProfile,
    profile: Profile,
    details: FirewallProfileDetails,
)
    ensures
        profiles.with(profile, Setting::Enabled, details.profile_enabled).with(
            profile,
            Setting::InboundAction,
            details.inbound_blocked,
        ).with(profile, Setting::OutboundAction, details.outbound_blocked).with(
            profile,
            Setting::NotificationsDisabled,
            details.notifications_disabled,
        ) == profiles.replaced(profile, details),
{
}

} // verus!
