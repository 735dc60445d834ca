//! Decoding of the packed status code that security products register.
//!
//! Bits 0-7 describe the definitions, bits 8-11 the product owner and bits
//! 12-15 the activity state. Third-party products do not always follow this
//! layout, so every unmapped value decodes to an explicit `Unknown`.

use vstd::prelude::*;

verus! {

/// Who ships the product, as far as the code tells.
#[derive(Clone, Copy, Debug, PartialEq, Eq, Structural)]
pub enum Owner {
    Windows,
    ThirdParty,
    Unknown,
}

/// The activity state a product reports.
#[derive(Clone, Copy, Debug, PartialEq, Eq, Structural)]
pub enum Activity {
    Off,
    On,
    Snoozed,
    Expired,
    Unknown,
}

/// Everything a packed status code says about a product.
#[derive(Clone, Copy, Debug, PartialEq, Eq, Structural)]
pub struct ProductStatus {
    /// The low twenty bits of the code; the rest carries no meaning.
    pub raw_state: u32,
    pub is_active: bool,
    pub is_realtime: bool,
    pub definitions_current: bool,
    pub owner: Owner,
    pub activity: Activity,
}

/// Bits 0-7 of a status code: zero when the definitions are up to date.
pub open spec fn definition_bits(state: i32) -> i32 {
    state & 0xFF
}

/// Bits 8-11 of a status code: the product owner.
pub open spec fn owner_bits(state: i32) -> i32 {
    (state >> 8) & 0xF
}

/// Bits 12-15 of a status code: the activity state.
pub open spec fn activity_bits(state: i32) -> i32 {
    (state >> 12) & 0xF
}

/// The owner a four-bit owner field stands for.
pub open spec fn owner_of(field: i32) -> Owner {
    if field == 1 {
        Owner::Windows
    } else if field == 0 {
        Owner::ThirdParty
    } else {
        Owner::Unknown
    }
}

/// The activity a four-bit activity field stands for.
pub open spec fn activity_of(field: i32) -> Activity {
    if field == 0 {
        Activity::Off
    } else if field == 1 {
        Activity::On
    } else if field == 2 {
        Activity::Snoozed
    } else if field == 3 {
        Activity::Expired
    } else {
        Activity::Unknown
    }
}

/// The full decoding of a status code.
pub open spec fn status_of(state: i32) -> ProductStatus {
    ProductStatus {
        raw_state: (state & 0xFFFFF) as u32,
        is_active: activity_bits(state) != 0,
        is_realtime: activity_bits(state) == 1,
        definitions_current: definition_bits(state) == 0,
        owner: owner_of(owner_bits(state)),
        activity: activity_of(activity_bits(state)),
    }
}

/// Extracts bits 0-7.
pub fn definition_field(state: i32) -> (field: i32)
    ensures
        field == definition_bits(state),
        0 <= field < 256,
{
    assert(0 <= (state & 0xFF) < 256) by (bit_vector);
    state & 0xFF
}

/// Extracts bits 8-11.
pub fn owner_field(state: i32) -> (field: i32)
    ensures
        field == owner_bits(state),
        0 <= field < 16,
{
    assert(0 <= ((state >> 8) & 0xF) < 16) by (bit_vector);
    (state >> 8) & 0xF
}

/// Extracts bits 12-15.
pub fn activity_field(state: i32) -> (field: i32)
    ensures
        field == activity_bits(state),
        0 <= field < 16,
{
    assert(0 <= ((state >> 12) & 0xF) < 16) by (bit_vector);
    (state >> 12) & 0xF
}

/// Decodes a packed status code. Total: every code has a decoding.
pub fn decode(state: i32) -> (status: ProductStatus)
    ensures
        status == status_of(state),
        status.is_active == (((state >> 12) & 0xF) != 0),
        status.definitions_current == ((state & 0xFF) == 0),
        status.raw_state < 0x100000,
{
    let activity = activity_field(state);
    let owner = owner_field(state);
    let definitions = definition_field(state);
    assert(0 <= (state & 0xFFFFF) < 0x100000) by (bit_vector);
    ProductStatus {
        raw_state: (state & 0xFFFFF) as u32,
        is_active: activity != 0,
        is_realtime: activity == 1,
        definitions_current: definitions == 0,
        owner: if owner == 1 {
            Owner::Windows
        } else if owner == 0 {
            Owner::ThirdParty
        } else {
            Owner::Unknown
        },
        activity: if activity == 0 {
            Activity::Off
        } else if activity == 1 {
            Activity::On
        } else if activity == 2 {
            Activity::Snoozed
        } else if activity == 3 {
            Activity::Expired
        } else {
            Activity::Unknown
        },
    }
}

/// The name of an activity field in reports.
pub open spec fn status_label(field: i32) -> Seq<char> {
    if field == 0 {
        "Off"@
    } else if field == 1 {
        "On"@
    } else if field == 2 {
        "Snoozed"@
    } else if field == 3 {
        "Expired"@
    } else {
        "Unknown"@
    }
}

/// Names the activity state that an activity field stands for.
pub fn state_status_decode(state: i32) -> (label: String)
    ensures
        label@ == status_label(state),
{
    if state == 0 {
        "Off".to_string()
    } else if state == 1 {
        "On".to_string()
    } else if state == 2 {
        "Snoozed".to_string()
    } else if state == 3 {
        "Expired".to_string()
    } else {
        "Unknown".to_string()
    }
}

/// The name of a definitions field in reports: up to date at zero, out of
/// date at every other value of the eight-bit field. A number that is no
/// value of the field has no name.
pub open spec fn definition_label(field: i32) -> Seq<char> {
    if field == 0 {
        "Up-to-date"@
    } else if 1 <= field <= 255 {
        "Out-of-date"@
    } else {
        "Unknown"@
    }
}

/// Names the state of the definitions that a definitions field stands for.
pub fn state_definition_decode(state: i32) -> (label: String)
    ensures
        label@ == definition_label(state),
{
    if state == 0 {
        "Up-to-date".to_string()
    } else if 1 <= state && state <= 255 {
        "Out-of-date".to_string()
    } else {
        "Unknown".to_string()
    }
}

/// The label of the definitions field of a status code says what the
/// decoding of the code says: up to date exactly when the definitions are
/// current, out of date for every other code.
pub proof fn lemma_definition_label_agrees_with_decode(state: i32)
    ensures
        definition_label(definition_bits(state)) == if status_of(state).definitions_current {
            "Up-to-date"@
        } else {
            "Out-of-date"@
        },
{
    assert(0 <= (state & 0xFF) < 256) by (bit_vector);
}

/// The answer that an owner field gives to "is this a third-party product?".
pub open spec fn third_party_label(field: i32) -> Seq<char> {
    if field == 0 {
        "Yes"@
    } else if field == 1 {
        "No"@
    } else {
        "Unknown"@
    }
}

/// Says whether an owner field stands for a third-party product.
pub fn state_owner_decode(state: i32) -> (label: String)
    ensures
        label@ == third_party_label(state),
{
    if state == 0 {
        "Yes".to_string()
    } else if state == 1 {
        "No".to_string()
    } else {
        "Unknown".to_string()
    }
}

/// Names the activity of a third-party firewall from its whole status code.
pub fn third_party_state(state: i32) -> (label: String)
    ensures
        label@ == if activity_bits(state) != 0 {
            "Active"@
        } else {
            "Inactive"@
        },
{
    if activity_field(state) != 0 {
        "Active".to_string()
    } else {
        "Inactive".to_string()
    }
}

} // verus!
