use vstd::prelude::*;
use vstd::string::StringExecFns;

verus! {

/// The name under which this plugin joins the bus.
pub open spec fn plugin_name() -> Seq<char> {
    "ObserverPlugin"@
}

/// Lower-case hexadecimal digits, indexed by their value.
pub open spec fn hex_digits() -> Seq<char> {
    seq!['0', '1', '2', '3', '4', '5', '6', '7', '8', '9', 'a', 'b', 'c', 'd', 'e', 'f']
}

/// The `k`-th of the 32 hex digits of `id`, counted from the most significant.
pub open spec fn nibble(id: u128, k: int) -> u128 {
    (id >> (((31 - k) * 4) as u128)) & 15u128
}

/// Which hex digit stands at position `i` of the hyphenated text.
pub open spec fn digit_index(i: int) -> int {
    if i < 8 {
        i
    } else if i < 13 {
        i - 1
    } else if i < 18 {
        i - 2
    } else if i < 23 {
        i - 3
    } else {
        i - 4
    }
}

/// The hyphenated text of an id: its 32 hex digits in groups of 8, 4, 4, 4 and 12.
pub open spec fn hyphenated_text(id: u128) -> Seq<char> {
    Seq::new(
        36,
        |i: int|
            if i == 8 || i == 13 || i == 18 || i == 23 {
                '-'
            } else {
                hex_digits()[nibble(id, digit_index(i)) as int]
            },
    )
}

/// A random version-4 id: the version nibble is 4 and the two variant bits are `10`.
pub open spec fn is_v4(id: u128) -> bool {
    &&& (id >> 76u128) & 15u128 == 4
    &&& (id >> 62u128) & 3u128 == 2
}

/// Relies on `uuid::Uuid::new_v4` (with `Uuid::as_u128`): random bits, except
/// that it sets the version nibble to 4 and the variant bits to `10`.
#[verifier::external_body]
fn random_v4() -> (r: u128)
    ensures
        is_v4(r),
{
    uuid::Uuid::new_v4().as_u128()
}

/// Relies on `uuid::Uuid::hyphenated` and its `Display` (with `Uuid::from_u128`):
/// the 32 lower-case hex digits of the big-endian value, with a hyphen after
/// the 8th, 12th, 16th and 20th.
#[verifier::external_body]
fn hyphenated(id: u128) -> (r: String)
    ensures
        r@ == hyphenated_text(id),
{
    uuid::Uuid::from_u128(id).hyphenated().to_string()
}

/// The identity of a plugin on the bus: fixed when it is made, never changed.
pub struct ObserverPlugin {
    name: String,
    id: u128,
}

impl ObserverPlugin {
    pub closed spec fn spec_name(&self) -> Seq<char> {
        self.name@
    }

    pub closed spec fn spec_id(&self) -> u128 {
        self.id
    }

    /// A plugin named `ObserverPlugin` with a fresh random id.
    pub fn new() -> (r: ObserverPlugin)
        ensures
            r.spec_name() == plugin_name(),
            is_v4(r.spec_id()),
    {
        ObserverPlugin { name: String::from_str("ObserverPlugin"), id: random_v4() }
    }

    /// A plugin with the given name and id, as a registrar that assigns
    /// identities makes it.
    pub fn with_identity(name: String, id: u128) -> (r: ObserverPlugin)
        ensures
            r.spec_name() == name@,
            r.spec_id() == id,
    {
        ObserverPlugin { name, id }
    }

    /// The plugin's id; every call returns the same value.
    pub fn get_id(&self) -> (r: u128)
        ensures
            r == self.spec_id(),
    {
        self.id
    }

    /// The plugin's name; every call returns the same text.
    pub fn get_name(&self) -> (r: String)
        ensures
            r@ == self.spec_name(),
    {
        self.name.clone()
    }

    /// The plugin's id as hyphenated text, as it appears in errors and logs.
    pub fn id_text(&self) -> (r: String)
        ensures
            r@ == hyphenated_text(self.spec_id()),
    {
        hyphenated(self.id)
    }
}

} // verus!
