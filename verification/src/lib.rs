//! Validated IEEE 802.1Q VLAN identifiers.
//!
//! A VLAN tag travels on the wire as a 16-bit integer, but only the
//! values `0..=4094` are meaningful: `0` marks the native (untagged)
//! VLAN, `1..=4094` are real tags, and `4095` is reserved by the
//! standard. This crate models that domain with three value types:
//!
//! * [`NativeVlanId`] — the untagged VLAN, always raw value `0`;
//! * [`VlanId`] — a tag in `1..=4094`, the only type that can hold an
//!   actual tag;
//! * [`MaybeVlanId`] — either of the two, spanning the whole valid
//!   domain `0..=4094`.
//!
//! Every fallible constructor validates its input and returns
//! [`InvalidVlanId`] on anything outside the type's domain; the types
//! themselves can only hold valid values. Equality and ordering of all
//! three types, including mixed-type comparisons, go by the raw value
//! exposed through [`AsRawVlanId`].

use vstd::prelude::*;

verus! {

use core::cmp::Ordering;
use vstd::std_specs::cmp::{PartialEqSpec, PartialOrdSpec};
use vstd::std_specs::convert::TryFromSpec;

/// The raw wire representation common to every VLAN identifier type.
pub type RawVlanId = u16;

/// How two raw values compare; every ordering the library's types
/// offer, mixed-type comparisons included, follows this one function.
pub open spec fn raw_ordering(a: u16, b: u16) -> Ordering {
    if a < b {
        Ordering::Less
    } else if a == b {
        Ordering::Equal
    } else {
        Ordering::Greater
    }
}

/// High byte of the big-endian encoding of a 16-bit value.
pub open spec fn be_high_byte(v: u16) -> u8 {
    (v / 256) as u8
}

/// Low byte of the big-endian encoding of a 16-bit value.
pub open spec fn be_low_byte(v: u16) -> u8 {
    (v % 256) as u8
}

/// The decimal digit `d` (which must be below 10) as a character.
pub open spec fn digit_char(d: u16) -> char {
    if d == 0 {
        '0'
    } else if d == 1 {
        '1'
    } else if d == 2 {
        '2'
    } else if d == 3 {
        '3'
    } else if d == 4 {
        '4'
    } else if d == 5 {
        '5'
    } else if d == 6 {
        '6'
    } else if d == 7 {
        '7'
    } else if d == 8 {
        '8'
    } else {
        '9'
    }
}

/// The decimal rendering of `v`: most significant digit first, no
/// sign, no padding, no separators.
pub open spec fn decimal_chars(v: u16) -> Seq<char>
    decreases v,
{
    if v < 10 {
        seq![digit_char(v)]
    } else {
        decimal_chars(v / 10).push(digit_char(v % 10))
    }
}

/// Relies on `u16`'s std `Display` implementation, reached through
/// `format!`: it prints the decimal digits of the value, most
/// significant first, with no sign, padding or separators.
#[verifier::external_body]
fn u16_decimal_string(v: u16) -> (r: String)
    ensures
        r@ == decimal_chars(v),
{
    format!("{}", v)
}

/// Types that can be converted to a raw VLAN ID (`u16`).
pub trait AsRawVlanId: Sized {
    /// The raw 16-bit value this identifier stands for.
    spec fn raw_spec(&self) -> u16;

    /// Get the raw `u16` value.
    fn as_raw_vlan_id(&self) -> (r: RawVlanId)
        ensures
            r == self.raw_spec(),
    ;

    /// The value as two big-endian bytes, the wire format of a VLAN
    /// tag inside an 802.1Q tag field.
    ///
    /// You don't need to implement this method yourself.
    fn as_be_bytes(&self) -> (r: [u8; 2])
        ensures
            r[0] == be_high_byte(self.raw_spec()),
            r[1] == be_low_byte(self.raw_spec()),
    {
        let v = self.as_raw_vlan_id();
        [(v / 256) as u8, (v % 256) as u8]
    }

    /// The decimal rendering of the raw value.
    ///
    /// You don't need to implement this method yourself.
    fn display_string(&self) -> (r: String)
        ensures
            r@ == decimal_chars(self.raw_spec()),
    {
        u16_decimal_string(self.as_raw_vlan_id())
    }
}

/// The error value that represents an invalid VLAN ID.
#[derive(Debug, Clone, Copy, PartialEq, Eq, Hash, Structural)]
pub struct InvalidVlanId;

impl InvalidVlanId {
    /// The fixed diagnostic text for this error.
    pub fn message(&self) -> (r: String)
        ensures
            r@ == "INVALID_VLAN_ID"@,
    {
        "INVALID_VLAN_ID".to_owned()
    }
}

/// The value that represents the native (untagged) VLAN.
///
/// It is semantically zero. Internally, it consumes no memory.
#[derive(Debug, Clone, Copy, Hash, Ord)]
pub struct NativeVlanId;

impl NativeVlanId {
    /// The raw value of the native VLAN.
    pub const VALUE: u16 = 0;
}

impl AsRawVlanId for NativeVlanId {
    open spec fn raw_spec(&self) -> u16 {
        0
    }

    fn as_raw_vlan_id(&self) -> (r: RawVlanId)
        ensures
            r == self.raw_spec(),
    {
        Self::VALUE
    }
}

impl Default for NativeVlanId {
    /// The native VLAN; there is only one such value.
    fn default() -> (r: NativeVlanId)
        ensures
            r == NativeVlanId,
    {
        NativeVlanId
    }
}

impl TryFrom<u16> for NativeVlanId {
    type Error = InvalidVlanId;

    fn try_from(value: u16) -> (r: Result<NativeVlanId, InvalidVlanId>) {
        if value == Self::VALUE {
            Ok(NativeVlanId)
        } else {
            Err(InvalidVlanId)
        }
    }
}

impl vstd::std_specs::convert::TryFromSpecImpl<u16> for NativeVlanId {
    open spec fn obeys_try_from_spec() -> bool {
        true
    }

    open spec fn try_from_spec(v: u16) -> Result<NativeVlanId, InvalidVlanId> {
        if v == 0 {
            Ok(NativeVlanId)
        } else {
            Err(InvalidVlanId)
        }
    }
}

impl From<NativeVlanId> for u16 {
    fn from(val: NativeVlanId) -> (r: u16) {
        NativeVlanId::VALUE
    }
}

impl vstd::std_specs::convert::FromSpecImpl<NativeVlanId> for u16 {
    open spec fn obeys_from_spec() -> bool {
        true
    }

    open spec fn from_spec(v: NativeVlanId) -> u16 {
        0
    }
}

impl From<&NativeVlanId> for u16 {
    fn from(val: &NativeVlanId) -> (r: u16) {
        NativeVlanId::VALUE
    }
}

impl vstd::std_specs::convert::FromSpecImpl<&NativeVlanId> for u16 {
    open spec fn obeys_from_spec() -> bool {
        true
    }

    open spec fn from_spec(v: &NativeVlanId) -> u16 {
        0
    }
}

impl<Rhs: AsRawVlanId> PartialEq<Rhs> for NativeVlanId {
    fn eq(&self, other: &Rhs) -> (r: bool) {
        self.as_raw_vlan_id() == other.as_raw_vlan_id()
    }
}

impl<Rhs: AsRawVlanId> vstd::std_specs::cmp::PartialEqSpecImpl<Rhs> for NativeVlanId {
    open spec fn obeys_eq_spec() -> bool {
        true
    }

    open spec fn eq_spec(&self, other: &Rhs) -> bool {
        self.raw_spec() == other.raw_spec()
    }
}

impl<Rhs: AsRawVlanId> PartialOrd<Rhs> for NativeVlanId {
    fn partial_cmp(&self, other: &Rhs) -> (r: Option<Ordering>) {
        let a = self.as_raw_vlan_id();
        let b = other.as_raw_vlan_id();
        if a < b {
            Some(Ordering::Less)
        } else if a == b {
            Some(Ordering::Equal)
        } else {
            Some(Ordering::Greater)
        }
    }
}

impl<Rhs: AsRawVlanId> vstd::std_specs::cmp::PartialOrdSpecImpl<Rhs> for NativeVlanId {
    open spec fn obeys_partial_cmp_spec() -> bool {
        true
    }

    open spec fn partial_cmp_spec(&self, other: &Rhs) -> Option<Ordering> {
        Some(raw_ordering(self.raw_spec(), other.raw_spec()))
    }
}

impl Eq for NativeVlanId {
}

/// Non-zero VLAN ID valid per the IEEE 802.1Q standard.
///
/// Range: 1-4094. A value of this type can only be obtained through
/// [`VlanId::try_new`] (or [`VlanId::min`], [`VlanId::max`] and
/// [`VlanId::one`]), so it always holds a value in that range.
#[derive(Debug, Clone, Copy, Hash, Ord)]
pub struct VlanId {
    inner: u16,
}

impl VlanId {
    /// The smallest valid tagged VLAN ID.
    pub const MIN_VALUE: u16 = 1;

    /// The largest valid tagged VLAN ID (4095 is reserved).
    pub const MAX_VALUE: u16 = 4094;

    /// Minimal tagged VLAN ID (1).
    pub fn min() -> (r: VlanId)
        ensures
            r.raw_spec() == Self::MIN_VALUE,
    {
        VlanId { inner: 1 }
    }

    /// Maximum tagged VLAN ID (4094).
    pub fn max() -> (r: VlanId)
        ensures
            r.raw_spec() == Self::MAX_VALUE,
    {
        VlanId { inner: 4094 }
    }

    /// Same as [`VlanId::min`] (1).
    pub fn one() -> (r: VlanId)
        ensures
            r.raw_spec() == Self::MIN_VALUE,
    {
        Self::min()
    }

    #[verifier::type_invariant]
    spec fn well_formed(self) -> bool {
        Self::MIN_VALUE <= self.inner && self.inner <= Self::MAX_VALUE
    }

    /// Validating constructor: the single validation gate of the
    /// library. Succeeds exactly on `1..=4094`.
    pub fn try_new(vlan: u16) -> (r: Result<VlanId, InvalidVlanId>)
        ensures
            r is Ok <==> Self::MIN_VALUE <= vlan && vlan <= Self::MAX_VALUE,
            r is Ok ==> r->Ok_0.raw_spec() == vlan,
            r is Err ==> r == Err::<VlanId, InvalidVlanId>(InvalidVlanId),
    {
        if vlan < Self::MIN_VALUE || vlan > Self::MAX_VALUE {
            Err(InvalidVlanId)
        } else {
            Ok(Self::new_unchecked(vlan))
        }
    }

    /// Unchecked constructor for values whose validity is already
    /// proven; kept private so no unvalidated input can reach it.
    fn new_unchecked(value: u16) -> (r: VlanId)
        requires
            Self::MIN_VALUE <= value && value <= Self::MAX_VALUE,
        ensures
            r.raw_spec() == value,
    {
        VlanId { inner: value }
    }

    /// The wrapped value. It is always in `1..=4094`, hence never zero.
    pub fn inner(&self) -> (r: u16)
        ensures
            r == self.raw_spec(),
            Self::MIN_VALUE <= r && r <= Self::MAX_VALUE,
    {
        proof {
            use_type_invariant(&*self);
        }
        self.inner
    }

    /// The wrapped value as a plain `u16`.
    pub fn as_u16(&self) -> (r: u16)
        ensures
            r == self.raw_spec(),
            Self::MIN_VALUE <= r && r <= Self::MAX_VALUE,
    {
        proof {
            use_type_invariant(&*self);
        }
        self.inner
    }
}

impl AsRawVlanId for VlanId {
    closed spec fn raw_spec(&self) -> u16 {
        self.inner
    }

    fn as_raw_vlan_id(&self) -> (r: RawVlanId)
        ensures
            r == self.raw_spec(),
    {
        self.inner
    }
}

impl TryFrom<u16> for VlanId {
    type Error = InvalidVlanId;

    fn try_from(value: u16) -> (r: Result<VlanId, InvalidVlanId>)
        ensures
            r is Ok <==> VlanId::MIN_VALUE <= value && value <= VlanId::MAX_VALUE,
            r is Ok ==> r->Ok_0.raw_spec() == value,
            r is Err ==> r == Err::<VlanId, InvalidVlanId>(InvalidVlanId),
    {
        VlanId::try_new(value)
    }
}

impl vstd::std_specs::convert::TryFromSpecImpl<u16> for VlanId {
    open spec fn obeys_try_from_spec() -> bool {
        true
    }

    closed spec fn try_from_spec(v: u16) -> Result<VlanId, InvalidVlanId> {
        if VlanId::MIN_VALUE <= v && v <= VlanId::MAX_VALUE {
            Ok(VlanId { inner: v })
        } else {
            Err(InvalidVlanId)
        }
    }
}

impl From<VlanId> for u16 {
    fn from(val: VlanId) -> (r: u16) {
        val.as_u16()
    }
}

impl vstd::std_specs::convert::FromSpecImpl<VlanId> for u16 {
    open spec fn obeys_from_spec() -> bool {
        true
    }

    open spec fn from_spec(v: VlanId) -> u16 {
        v.raw_spec()
    }
}

impl From<&VlanId> for u16 {
    fn from(val: &VlanId) -> (r: u16) {
        val.as_u16()
    }
}

impl vstd::std_specs::convert::FromSpecImpl<&VlanId> for u16 {
    open spec fn obeys_from_spec() -> bool {
        true
    }

    open spec fn from_spec(v: &VlanId) -> u16 {
        v.raw_spec()
    }
}

impl<Rhs: AsRawVlanId> PartialEq<Rhs> for VlanId {
    fn eq(&self, other: &Rhs) -> (r: bool) {
        self.as_raw_vlan_id() == other.as_raw_vlan_id()
    }
}

impl<Rhs: AsRawVlanId> vstd::std_specs::cmp::PartialEqSpecImpl<Rhs> for VlanId {
    open spec fn obeys_eq_spec() -> bool {
        true
    }

    open spec fn eq_spec(&self, other: &Rhs) -> bool {
        self.raw_spec() == other.raw_spec()
    }
}

impl<Rhs: AsRawVlanId> PartialOrd<Rhs> for VlanId {
    fn partial_cmp(&self, other: &Rhs) -> (r: Option<Ordering>) {
        let a = self.as_raw_vlan_id();
        let b = other.as_raw_vlan_id();
        if a < b {
            Some(Ordering::Less)
        } else if a == b {
            Some(Ordering::Equal)
        } else {
            Some(Ordering::Greater)
        }
    }
}

impl<Rhs: AsRawVlanId> vstd::std_specs::cmp::PartialOrdSpecImpl<Rhs> for VlanId {
    open spec fn obeys_partial_cmp_spec() -> bool {
        true
    }

    open spec fn partial_cmp_spec(&self, other: &Rhs) -> Option<Ordering> {
        Some(raw_ordering(self.raw_spec(), other.raw_spec()))
    }
}

impl Eq for VlanId {
}

/// Two tagged IDs with the same raw value are the same value: the raw
/// accessor determines a `VlanId` completely.
pub proof fn lemma_vlan_id_injective(a: VlanId, b: VlanId)
    requires
        a.raw_spec() == b.raw_spec(),
    ensures
        a == b,
{
}

/// VLAN ID that may be a native VLAN.
///
/// Effectively, this is an `Option<T>` for the VLAN world: the native
/// variant plays the part of `None`, with raw value `0` as the
/// sentinel. Its raw values span exactly `0..=4094`.
#[derive(Debug, Clone, Copy, Hash, Ord)]
pub enum MaybeVlanId {
    /// Native VLAN value. It is effectively the same as `Option::None`.
    Native(NativeVlanId),
    /// Tagged valid VLAN value.
    Tagged(VlanId),
}

impl MaybeVlanId {
    /// The size of this type in octets when encoded on the wire.
    pub const OCTET_SIZE: usize = 2;

    /// Number of bits this type contains when encoded.
    pub const BITS: u32 = 16;

    /// Number of bits actually used.
    pub const EFFECTIVE_BITS: u32 = 12;

    /// Native VLAN value.
    pub fn native() -> (r: MaybeVlanId)
        ensures
            r == MaybeVlanId::Native(NativeVlanId),
    {
        MaybeVlanId::Native(NativeVlanId)
    }

    /// The smallest tagged value, `Tagged(1)`.
    pub fn min_tagged_vlan() -> (r: MaybeVlanId)
        ensures
            r is Tagged && r->Tagged_0.raw_spec() == VlanId::MIN_VALUE,
            r.raw_spec() == VlanId::MIN_VALUE,
    {
        MaybeVlanId::Tagged(VlanId::min())
    }

    /// The largest tagged value, `Tagged(4094)`.
    pub fn max_tagged_vlan() -> (r: MaybeVlanId)
        ensures
            r is Tagged && r->Tagged_0.raw_spec() == VlanId::MAX_VALUE,
            r.raw_spec() == VlanId::MAX_VALUE,
    {
        MaybeVlanId::Tagged(VlanId::max())
    }

    /// Tagged VLAN value.
    pub fn tagged(vlan: VlanId) -> (r: MaybeVlanId)
        ensures
            r == MaybeVlanId::Tagged(vlan),
    {
        MaybeVlanId::Tagged(vlan)
    }

    /// The raw value: `0` for the native VLAN, the tag otherwise.
    pub fn as_u16(&self) -> (r: u16)
        ensures
            r == self.raw_spec(),
            r <= VlanId::MAX_VALUE,
    {
        match *self {
            MaybeVlanId::Tagged(vlan) => vlan.as_u16(),
            _ => 0,
        }
    }

    /// Validating constructor over the whole valid domain: `0` becomes
    /// the native VLAN, `1..=4094` a tagged one, anything above 4094
    /// is rejected.
    pub fn try_new(vlan: u16) -> (r: Result<MaybeVlanId, InvalidVlanId>)
        ensures
            r is Ok <==> vlan <= VlanId::MAX_VALUE,
            vlan == 0 ==> r == Ok::<MaybeVlanId, InvalidVlanId>(MaybeVlanId::Native(NativeVlanId)),
            VlanId::MIN_VALUE <= vlan && vlan <= VlanId::MAX_VALUE ==> r is Ok
                && r->Ok_0 is Tagged && r->Ok_0->Tagged_0.raw_spec() == vlan,
            r is Ok ==> r->Ok_0.raw_spec() == vlan,
            r is Err ==> r == Err::<MaybeVlanId, InvalidVlanId>(InvalidVlanId),
    {
        if vlan == 0 {
            Ok(Self::native())
        } else if vlan <= VlanId::MAX_VALUE {
            Ok(MaybeVlanId::Tagged(VlanId::new_unchecked(vlan)))
        } else {
            Err(InvalidVlanId)
        }
    }
}

impl AsRawVlanId for MaybeVlanId {
    closed spec fn raw_spec(&self) -> u16 {
        match *self {
            MaybeVlanId::Native(_) => 0,
            MaybeVlanId::Tagged(v) => v.raw_spec(),
        }
    }

    fn as_raw_vlan_id(&self) -> (r: RawVlanId)
        ensures
            r == self.raw_spec(),
    {
        match *self {
            MaybeVlanId::Native(_) => 0,
            MaybeVlanId::Tagged(vlan) => vlan.as_raw_vlan_id(),
        }
    }
}

impl TryFrom<u16> for MaybeVlanId {
    type Error = InvalidVlanId;

    fn try_from(value: u16) -> (r: Result<MaybeVlanId, InvalidVlanId>)
        ensures
            r is Ok <==> value <= VlanId::MAX_VALUE,
            r is Ok ==> r->Ok_0.raw_spec() == value,
            value == 0 ==> r == Ok::<MaybeVlanId, InvalidVlanId>(MaybeVlanId::Native(NativeVlanId)),
            r is Err ==> r == Err::<MaybeVlanId, InvalidVlanId>(InvalidVlanId),
    {
        MaybeVlanId::try_new(value)
    }
}

impl vstd::std_specs::convert::TryFromSpecImpl<u16> for MaybeVlanId {
    open spec fn obeys_try_from_spec() -> bool {
        true
    }

    closed spec fn try_from_spec(v: u16) -> Result<MaybeVlanId, InvalidVlanId> {
        if v == 0 {
            Ok(MaybeVlanId::Native(NativeVlanId))
        } else if v <= VlanId::MAX_VALUE {
            Ok(MaybeVlanId::Tagged(VlanId { inner: v }))
        } else {
            Err(InvalidVlanId)
        }
    }
}

impl From<MaybeVlanId> for u16 {
    fn from(val: MaybeVlanId) -> (r: u16) {
        val.as_u16()
    }
}

impl vstd::std_specs::convert::FromSpecImpl<MaybeVlanId> for u16 {
    open spec fn obeys_from_spec() -> bool {
        true
    }

    open spec fn from_spec(v: MaybeVlanId) -> u16 {
        v.raw_spec()
    }
}

impl From<&MaybeVlanId> for u16 {
    fn from(val: &MaybeVlanId) -> (r: u16) {
        val.as_u16()
    }
}

impl vstd::std_specs::convert::FromSpecImpl<&MaybeVlanId> for u16 {
    open spec fn obeys_from_spec() -> bool {
        true
    }

    open spec fn from_spec(v: &MaybeVlanId) -> u16 {
        v.raw_spec()
    }
}

impl<Rhs: AsRawVlanId> PartialEq<Rhs> for MaybeVlanId {
    fn eq(&self, other: &Rhs) -> (r: bool) {
        self.as_raw_vlan_id() == other.as_raw_vlan_id()
    }
}

impl<Rhs: AsRawVlanId> vstd::std_specs::cmp::PartialEqSpecImpl<Rhs> for MaybeVlanId {
    open spec fn obeys_eq_spec() -> bool {
        true
    }

    open spec fn eq_spec(&self, other: &Rhs) -> bool {
        self.raw_spec() == other.raw_spec()
    }
}

impl<Rhs: AsRawVlanId> PartialOrd<Rhs> for MaybeVlanId {
    fn partial_cmp(&self, other: &Rhs) -> (r: Option<Ordering>) {
        let a = self.as_raw_vlan_id();
        let b = other.as_raw_vlan_id();
        if a < b {
            Some(Ordering::Less)
        } else if a == b {
            Some(Ordering::Equal)
        } else {
            Some(Ordering::Greater)
        }
    }
}

impl<Rhs: AsRawVlanId> vstd::std_specs::cmp::PartialOrdSpecImpl<Rhs> for MaybeVlanId {
    open spec fn obeys_partial_cmp_spec() -> bool {
        true
    }

    open spec fn partial_cmp_spec(&self, other: &Rhs) -> Option<Ordering> {
        Some(raw_ordering(self.raw_spec(), other.raw_spec()))
    }
}

impl Eq for MaybeVlanId {
}

/// Round-trip law: every raw value in `1..=4094` constructs a
/// `VlanId` whose raw accessor gives that value back.
pub proof fn lemma_vlan_id_round_trip(v: u16)
    requires
        VlanId::MIN_VALUE <= v && v <= VlanId::MAX_VALUE,
    ensures
        VlanId::try_from_spec(v) is Ok,
        VlanId::try_from_spec(v)->Ok_0.raw_spec() == v,
{
}

/// The other direction of the round trip: a `VlanId` whose raw value
/// lies in the valid range is reproduced exactly by construction from
/// that raw value.
pub proof fn lemma_vlan_id_reconstruct(x: VlanId)
    requires
        VlanId::MIN_VALUE <= x.raw_spec() && x.raw_spec() <= VlanId::MAX_VALUE,
    ensures
        VlanId::try_from_spec(x.raw_spec()) == Ok::<VlanId, InvalidVlanId>(x),
{
}

/// Round-trip law: every raw value in `0..=4094` constructs a
/// `MaybeVlanId` whose raw accessor gives that value back.
pub proof fn lemma_maybe_vlan_id_round_trip(u: u16)
    requires
        u <= VlanId::MAX_VALUE,
    ensures
        MaybeVlanId::try_from_spec(u) is Ok,
        MaybeVlanId::try_from_spec(u)->Ok_0.raw_spec() == u,
{
}

/// The other direction of the round trip: a `MaybeVlanId` whose tagged
/// payload (if any) lies in the valid range is reproduced exactly,
/// variant included, by construction from its raw value.
pub proof fn lemma_maybe_vlan_id_reconstruct(x: MaybeVlanId)
    requires
        x is Tagged ==> VlanId::MIN_VALUE <= x->Tagged_0.raw_spec()
            && x->Tagged_0.raw_spec() <= VlanId::MAX_VALUE,
    ensures
        MaybeVlanId::try_from_spec(x.raw_spec()) == Ok::<MaybeVlanId, InvalidVlanId>(x),
{
}

/// Cross-type equivalence: wrapping a tagged ID changes nothing the
/// library's equality can see, and the native wrapper equals the bare
/// native ID.
pub proof fn lemma_cross_type_equivalence(v: VlanId)
    ensures
        MaybeVlanId::Tagged(v).eq_spec(&v),
        v.eq_spec(&MaybeVlanId::Tagged(v)),
        MaybeVlanId::Tagged(v).raw_spec() == v.raw_spec(),
        MaybeVlanId::Native(NativeVlanId).eq_spec(&NativeVlanId),
        NativeVlanId.eq_spec(&MaybeVlanId::Native(NativeVlanId)),
{
}

/// Ordering consistency: a native ID compares with any other ID
/// exactly as the raw values do, and is equal exactly when the raw
/// values are.
pub proof fn lemma_native_vlan_id_order<Rhs: AsRawVlanId>(a: NativeVlanId, b: Rhs)
    ensures
        a.partial_cmp_spec(&b) == Some(raw_ordering(a.raw_spec(), b.raw_spec())),
        a.eq_spec(&b) <==> a.raw_spec() == b.raw_spec(),
{
}

/// Ordering consistency: a tagged ID compares with any other ID
/// exactly as the raw values do, and is equal exactly when the raw
/// values are.
pub proof fn lemma_vlan_id_order<Rhs: AsRawVlanId>(a: VlanId, b: Rhs)
    ensures
        a.partial_cmp_spec(&b) == Some(raw_ordering(a.raw_spec(), b.raw_spec())),
        a.eq_spec(&b) <==> a.raw_spec() == b.raw_spec(),
{
}

/// Ordering consistency: a maybe-native ID compares with any other ID
/// exactly as the raw values do, and is equal exactly when the raw
/// values are.
pub proof fn lemma_maybe_vlan_id_order<Rhs: AsRawVlanId>(a: MaybeVlanId, b: Rhs)
    ensures
        a.partial_cmp_spec(&b) == Some(raw_ordering(a.raw_spec(), b.raw_spec())),
        a.eq_spec(&b) <==> a.raw_spec() == b.raw_spec(),
{
}

} // verus!
