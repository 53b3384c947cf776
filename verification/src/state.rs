//! The state of transfers and of the device's identity.

use vstd::prelude::*;

verus! {

/// Where a transfer stands.
#[derive(Clone, Debug, PartialEq, Eq)]
pub enum TransferStatus {
    Pending,
    Transferring,
    Completed,
    Failed(String),
    Cancelled,
}

impl TransferStatus {
    /// The status of a transfer once sending has ended: completed, or
    /// failed with the error's text.
    pub fn after_send(outcome: Result<(), String>) -> (s: TransferStatus)
        ensures
            outcome is Ok ==> s == TransferStatus::Completed,
            outcome matches Err(e) ==> s == TransferStatus::Failed(e),
    {
        match outcome {
            Ok(()) => TransferStatus::Completed,
            Err(e) => TransferStatus::Failed(e),
        }
    }
}

/// The 128-bit value of a UUID in text form, or `None` where the text is
/// not a UUID.
pub uninterp spec fn uuid_value(text: Seq<char>) -> Option<u128>;

/// `uuid::Uuid::parse_str`, taken as the 128-bit value of the UUID. The
/// accepted forms are uuid's own; the result is named, not stated.
#[verifier::external_body]
fn parse_uuid(text: &str) -> (r: Option<u128>)
    ensures
        r == uuid_value(text@),
{
    uuid::Uuid::parse_str(text).ok().map(|u| u.as_u128())
}

/// `uuid::Uuid::from_u128(id).to_string()`: the hyphenated text of the UUID
/// whose value is `id`. The text itself is uuid's; that `Uuid::parse_str`
/// reads it back as `id` is what uuid documents of its hyphenated form.
#[verifier::external_body]
fn uuid_to_text(id: u128) -> (t: String)
    ensures
        uuid_value(t@) == Some(id),
{
    uuid::Uuid::from_u128(id).to_string()
}

/// Reads a UUID in text form as its 128-bit value.
pub fn parse_id(text: &str) -> (r: Option<u128>)
    ensures
        r == uuid_value(text@),
{
    parse_uuid(text)
}

/// The text under which a device's identity is stored: it reads back as the
/// same identity.
pub fn device_id_text(id: u128) -> (t: String)
    ensures
        uuid_value(t@) == Some(id),
{
    uuid_to_text(id)
}

/// Whether `id` is a version-4 (random) UUID of the RFC 4122 variant: the
/// version nibble (the high half of byte 6) is 4, and the top two bits of
/// byte 8 are `10`.
pub open spec fn is_v4_uuid(id: u128) -> bool {
    &&& (id >> 76u128) & 0xfu128 == 4
    &&& (id >> 62u128) & 0x3u128 == 2
}

/// `uuid::Uuid::new_v4`: a random UUID, as its 128-bit value. Its source
/// sets the version to 4 and the variant to RFC 4122; the other bits are
/// random and nothing is claimed of them.
#[verifier::external_body]
fn new_uuid() -> (r: u128)
    ensures
        is_v4_uuid(r),
{
    uuid::Uuid::new_v4().as_u128()
}

/// The identity a device takes on start.
#[derive(Clone, Copy, Debug, PartialEq, Eq)]
pub enum DeviceIdChoice {
    /// The identity stored earlier.
    Stored(u128),
    /// A new identity, to be stored.
    Fresh(u128),
}

/// The identity chosen from what was stored: the stored UUID where it
/// parses, else `fresh`.
pub open spec fn device_id_choice(stored: Option<Seq<char>>, fresh: u128) -> DeviceIdChoice {
    match stored {
        Some(t) => match uuid_value(t) {
            Some(id) => DeviceIdChoice::Stored(id),
            None => DeviceIdChoice::Fresh(fresh),
        },
        None => DeviceIdChoice::Fresh(fresh),
    }
}

/// The identity a choice settles on.
pub open spec fn chosen_id(c: DeviceIdChoice) -> u128 {
    match c {
        DeviceIdChoice::Stored(id) => id,
        DeviceIdChoice::Fresh(id) => id,
    }
}

/// Chooses the device's identity from what was stored (where anything
/// could be read): the stored UUID where it parses, else `fresh`.
pub fn choose_device_id(stored: Option<&str>, fresh: u128) -> (c: DeviceIdChoice)
    ensures
        c == device_id_choice(
            match stored {
                Some(t) => Some(t@),
                None => None,
            },
            fresh,
        ),
{
    match stored {
        Some(t) => match parse_uuid(t) {
            Some(id) => DeviceIdChoice::Stored(id),
            None => DeviceIdChoice::Fresh(fresh),
        },
        None => DeviceIdChoice::Fresh(fresh),
    }
}

/// The device's identity on start: the stored one where it parses, else a
/// new random version-4 UUID.
pub fn load_device_id(stored: Option<&str>) -> (c: DeviceIdChoice)
    ensures
        c matches DeviceIdChoice::Fresh(id) ==> is_v4_uuid(id),
        match stored {
            Some(t) => match uuid_value(t@) {
                Some(id) => c == DeviceIdChoice::Stored(id),
                None => c is Fresh,
            },
            None => c is Fresh,
        },
{
    choose_device_id(stored, new_uuid())
}

/// The identity is stable: once the chosen identity is stored as
/// [`device_id_text`] gives it, the next start chooses that same identity,
/// as stored, whatever fresh identity it would otherwise take.
pub proof fn lemma_device_id_stable(first: DeviceIdChoice, text: Seq<char>, fresh: u128)
    requires
        uuid_value(text) == Some(chosen_id(first)),
    ensures
        device_id_choice(Some(text), fresh) == DeviceIdChoice::Stored(chosen_id(first)),
{
}

} // verus!
