//! The message codec: one typed record per message kind, with byte-exact
//! encoding and decoding, and the per-kind envelope assembly.

use vstd::prelude::*;

use crate::envelope::Advertisement;
use crate::envelope::is_apple_envelope;
use crate::util::get_first_two_bytes_of_sha256;
use crate::util::opt_text;
use crate::util::sha256_first_two;

verus! {

/// Why an operation of this crate failed.
#[derive(Clone, Copy, Debug, PartialEq, Eq, Structural)]
pub enum AdvertisementError {
    /// A decode was given fewer bytes than the kind's fixed offsets require.
    TruncatedInput,
    /// A kind's pre-encode validation hook rejected the record.
    ValidationRejected,
    /// The external advertising transport failed; the cause is not interpreted.
    TransportFailure,
}

/// Data that can stand in an advertisement's manufacturer-data payload.
pub trait AdvertisableData: Sized {
    /// The exact wire form of this record.
    spec fn octets_spec(&self) -> Seq<u8>;

    /// Encode this record into its wire form.
    fn octets(&self) -> (r: Vec<u8>)
        ensures
            r@ == self.octets_spec(),
    ;
}

/// Data for an AirDrop advertisement: three two-byte tokens derived from the
/// owner's identifiers.
#[derive(Clone, Copy, Debug)]
pub struct AirDropAdvertisementData {
    pub apple_id: [u8; 2],
    pub phone: [u8; 2],
    pub email: [u8; 2],
}

/// Whether two byte arrays hold the same bytes.
fn bytes_eq<const N: usize>(a: &[u8; N], b: &[u8; N]) -> (r: bool)
    ensures
        r == (a@ == b@),
{
    let mut i: usize = 0;
    while i < N
        invariant
            i <= N,
            forall|j: int| 0 <= j < i ==> a@[j] == b@[j],
        decreases N - i,
    {
        if a[i] != b[i] {
            return false;
        }
        i += 1;
    }
    proof {
        assert(a@ =~= b@);
    }
    true
}

impl PartialEq for AirDropAdvertisementData {
    fn eq(&self, other: &AirDropAdvertisementData) -> (r: bool) {
        bytes_eq(&self.apple_id, &other.apple_id) && bytes_eq(&self.phone, &other.phone)
            && bytes_eq(&self.email, &other.email)
    }
}

impl vstd::std_specs::cmp::PartialEqSpecImpl for AirDropAdvertisementData {
    open spec fn obeys_eq_spec() -> bool {
        true
    }

    open spec fn eq_spec(&self, other: &AirDropAdvertisementData) -> bool {
        self.apple_id@ == other.apple_id@ && self.phone@ == other.phone@
            && self.email@ == other.email@
    }
}

impl AdvertisableData for AirDropAdvertisementData {
    /// Tag, length field, eight padding bytes, a version byte, then the three
    /// tokens; the email token occupies both its own and a duplicate slot.
    open spec fn octets_spec(&self) -> Seq<u8> {
        seq![0x05u8, 0x12u8, 0u8, 0u8, 0u8, 0u8, 0u8, 0u8, 0u8, 0u8, 0x01u8] + self.apple_id@
            + self.phone@ + self.email@ + self.email@
    }

    fn octets(&self) -> (r: Vec<u8>) {
        let mut v: Vec<u8> = Vec::new();
        v.push(0x05); // Message type
        v.push(0x12); // Message length
        let mut i: usize = 0;
        while i < 8
            invariant
                i <= 8,
                v@ =~= seq![0x05u8, 0x12u8] + Seq::new(i as nat, |j: int| 0u8),
            decreases 8 - i,
        {
            v.push(0x00); // Padding
            i += 1;
        }
        v.push(0x01); // AirDrop version
        v.push(self.apple_id[0]);
        v.push(self.apple_id[1]);
        v.push(self.phone[0]);
        v.push(self.phone[1]);
        v.push(self.email[0]);
        v.push(self.email[1]);
        v.push(self.email[0]);
        v.push(self.email[1]);
        proof {
            assert(v@ =~= self.octets_spec());
        }
        v
    }
}

/// What a byte sequence decodes to as an AirDrop record: the three tokens sit
/// at fixed offsets after the header, padding and version byte. The header
/// bytes themselves are not validated.
pub open spec fn airdrop_decodes_to(bytes: Seq<u8>, d: AirDropAdvertisementData) -> bool {
    &&& bytes.len() >= 17
    &&& d.apple_id@ == bytes.subrange(11, 13)
    &&& d.phone@ == bytes.subrange(13, 15)
    &&& d.email@ == bytes.subrange(15, 17)
}

impl AirDropAdvertisementData {
    /// Decode a captured byte sequence; fails when the bytes end before the
    /// offsets the layout requires.
    pub fn try_from(value: Vec<u8>) -> (r: Result<AirDropAdvertisementData, AdvertisementError>)
        ensures
            value@.len() >= 17 ==> (r matches Ok(d) && airdrop_decodes_to(value@, d)),
            value@.len() < 17 ==> r == Err::<AirDropAdvertisementData, AdvertisementError>(
                AdvertisementError::TruncatedInput,
            ),
    {
        if value.len() < 17 {
            return Err(AdvertisementError::TruncatedInput);
        }
        let d = AirDropAdvertisementData {
            apple_id: [value[11], value[12]],
            phone: [value[13], value[14]],
            email: [value[15], value[16]],
        };
        proof {
            assert(d.apple_id@ =~= value@.subrange(11, 13));
            assert(d.phone@ =~= value@.subrange(13, 15));
            assert(d.email@ =~= value@.subrange(15, 17));
        }
        Ok(d)
    }
}

/// Decoding an encoded AirDrop record recovers the record: the round trip is
/// the identity on all three tokens.
pub proof fn lemma_airdrop_round_trip(d: AirDropAdvertisementData)
    ensures
        airdrop_decodes_to(d.octets_spec(), d),
{
    assert(d.octets_spec().subrange(11, 13) =~= d.apple_id@);
    assert(d.octets_spec().subrange(13, 15) =~= d.phone@);
    assert(d.octets_spec().subrange(15, 17) =~= d.email@);
}

/// An AirDrop record encodes to the same number of bytes whatever its tokens.
pub proof fn lemma_airdrop_octets_len(d: AirDropAdvertisementData)
    ensures
        d.octets_spec().len() == 19,
{
}

/// Data for an AirPlay source message; it carries no record-specific data.
#[derive(Clone, Copy, Debug)]
pub struct AirPlaySourceAdvertisementData;

impl PartialEq for AirPlaySourceAdvertisementData {
    fn eq(&self, _other: &AirPlaySourceAdvertisementData) -> (r: bool) {
        true
    }
}

impl vstd::std_specs::cmp::PartialEqSpecImpl for AirPlaySourceAdvertisementData {
    open spec fn obeys_eq_spec() -> bool {
        true
    }

    open spec fn eq_spec(&self, _other: &AirPlaySourceAdvertisementData) -> bool {
        true
    }
}

impl AdvertisableData for AirPlaySourceAdvertisementData {
    /// The whole wire form is constant.
    open spec fn octets_spec(&self) -> Seq<u8> {
        seq![0x0au8, 0x01u8, 0x00u8]
    }

    fn octets(&self) -> (r: Vec<u8>) {
        let mut v: Vec<u8> = Vec::new();
        v.push(0x0a); // Message type
        v.push(0x01); // Message length
        v.push(0x00);
        proof {
            assert(v@ =~= self.octets_spec());
        }
        v
    }
}

impl AirPlaySourceAdvertisementData {
    /// Decode succeeds for any input: the message carries nothing to read.
    pub fn try_from(_value: Vec<u8>) -> (r: Result<
        AirPlaySourceAdvertisementData,
        AdvertisementError,
    >)
        ensures
            r == Ok::<AirPlaySourceAdvertisementData, AdvertisementError>(
                (AirPlaySourceAdvertisementData {}),
            ),
    {
        Ok(AirPlaySourceAdvertisementData {})
    }
}

/// Any two AirPlay source records are equal: the kind carries no data, so the
/// no-op decode, which always returns the unit record, returns the encoded
/// record itself.
pub proof fn lemma_airplay_source_round_trip(
    a: AirPlaySourceAdvertisementData,
    b: AirPlaySourceAdvertisementData,
)
    ensures
        a == b,
{
}

/// An AirPlay source record encodes to the same number of bytes always.
pub proof fn lemma_airplay_source_octets_len(d: AirPlaySourceAdvertisementData)
    ensures
        d.octets_spec().len() == 3,
{
}

/// Data for an AirPlay target message: the target's IPv4 address, in network
/// byte order.
#[derive(Clone, Copy, Debug)]
pub struct AirPlayTargetAdvertisementData {
    pub ip_address: [u8; 4],
}

impl PartialEq for AirPlayTargetAdvertisementData {
    fn eq(&self, other: &AirPlayTargetAdvertisementData) -> (r: bool) {
        bytes_eq(&self.ip_address, &other.ip_address)
    }
}

impl vstd::std_specs::cmp::PartialEqSpecImpl for AirPlayTargetAdvertisementData {
    open spec fn obeys_eq_spec() -> bool {
        true
    }

    open spec fn eq_spec(&self, other: &AirPlayTargetAdvertisementData) -> bool {
        self.ip_address@ == other.ip_address@
    }
}

impl AdvertisableData for AirPlayTargetAdvertisementData {
    /// Tag, length field, two constant bytes, then the four address bytes.
    open spec fn octets_spec(&self) -> Seq<u8> {
        seq![0x09u8, 0x06u8, 0x03u8, 0x07u8] + self.ip_address@
    }

    fn octets(&self) -> (r: Vec<u8>) {
        let mut v: Vec<u8> = Vec::new();
        v.push(0x09); // Message type
        v.push(0x06); // Message length
        v.push(0x03);
        v.push(0x07);
        v.push(self.ip_address[0]);
        v.push(self.ip_address[1]);
        v.push(self.ip_address[2]);
        v.push(self.ip_address[3]);
        proof {
            assert(v@ =~= self.octets_spec());
        }
        v
    }
}

/// What a byte sequence decodes to as an AirPlay target record: the four
/// address bytes sit right after the header and the two constant bytes.
pub open spec fn airplay_target_decodes_to(
    bytes: Seq<u8>,
    d: AirPlayTargetAdvertisementData,
) -> bool {
    &&& bytes.len() >= 8
    &&& d.ip_address@ == bytes.subrange(4, 8)
}

impl AirPlayTargetAdvertisementData {
    /// Decode a captured byte sequence; fails when the bytes end before the
    /// offsets the layout requires.
    pub fn try_from(value: Vec<u8>) -> (r: Result<
        AirPlayTargetAdvertisementData,
        AdvertisementError,
    >)
        ensures
            value@.len() >= 8 ==> (r matches Ok(d) && airplay_target_decodes_to(value@, d)),
            value@.len() < 8 ==> r == Err::<AirPlayTargetAdvertisementData, AdvertisementError>(
                AdvertisementError::TruncatedInput,
            ),
    {
        if value.len() < 8 {
            return Err(AdvertisementError::TruncatedInput);
        }
        let d = AirPlayTargetAdvertisementData {
            ip_address: [value[4], value[5], value[6], value[7]],
        };
        proof {
            assert(d.ip_address@ =~= value@.subrange(4, 8));
        }
        Ok(d)
    }
}

/// Decoding an encoded AirPlay target record recovers the address.
pub proof fn lemma_airplay_target_round_trip(d: AirPlayTargetAdvertisementData)
    ensures
        airplay_target_decodes_to(d.octets_spec(), d),
{
    assert(d.octets_spec().subrange(4, 8) =~= d.ip_address@);
}

/// An AirPlay target record encodes to the same number of bytes whatever its
/// address.
pub proof fn lemma_airplay_target_octets_len(d: AirPlayTargetAdvertisementData)
    ensures
        d.octets_spec().len() == 8,
{
}

/// Data for an AirPrint message: the service port, the printer's IPv6 address
/// and a power level.
#[derive(Clone, Copy, Debug)]
pub struct AirPrintAdvertisementData {
    pub port: u16,
    pub ip_addr: [u8; 16],
    pub power: u8,
}

impl PartialEq for AirPrintAdvertisementData {
    fn eq(&self, other: &AirPrintAdvertisementData) -> (r: bool) {
        self.port == other.port && bytes_eq(&self.ip_addr, &other.ip_addr)
            && self.power == other.power
    }
}

impl vstd::std_specs::cmp::PartialEqSpecImpl for AirPrintAdvertisementData {
    open spec fn obeys_eq_spec() -> bool {
        true
    }

    open spec fn eq_spec(&self, other: &AirPrintAdvertisementData) -> bool {
        self.port == other.port && self.ip_addr@ == other.ip_addr@ && self.power == other.power
    }
}

impl AdvertisableData for AirPrintAdvertisementData {
    /// Tag, length field, three constant bytes, the port big-endian, the
    /// sixteen address bytes, then the power level.
    open spec fn octets_spec(&self) -> Seq<u8> {
        seq![
            0x03u8,
            0x16u8,
            0x74u8,
            0x07u8,
            0x6fu8,
            (self.port / 256) as u8,
            (self.port % 256) as u8,
        ] + self.ip_addr@ + seq![self.power]
    }

    fn octets(&self) -> (r: Vec<u8>) {
        let mut v: Vec<u8> = Vec::new();
        v.push(0x03); // Message type
        v.push(0x16); // Message length
        v.push(0x74); // Address type
        v.push(0x07); // Resource path
        v.push(0x6f); // Security type
        v.push((self.port / 256) as u8);
        v.push((self.port % 256) as u8);
        let mut i: usize = 0;
        while i < 16
            invariant
                i <= 16,
                v@ =~= seq![
                    0x03u8,
                    0x16u8,
                    0x74u8,
                    0x07u8,
                    0x6fu8,
                    (self.port / 256) as u8,
                    (self.port % 256) as u8,
                ] + self.ip_addr@.subrange(0, i as int),
            decreases 16 - i,
        {
            v.push(self.ip_addr[i]);
            i += 1;
        }
        v.push(self.power);
        proof {
            assert(self.ip_addr@.subrange(0, 16) =~= self.ip_addr@);
            assert(v@ =~= self.octets_spec());
        }
        v
    }
}

/// What a byte sequence decodes to as an AirPrint record: the port big-endian
/// at offsets five and six, the address bytes after it, the power level last.
pub open spec fn airprint_decodes_to(bytes: Seq<u8>, d: AirPrintAdvertisementData) -> bool {
    &&& bytes.len() >= 24
    &&& d.port == bytes[5] * 256 + bytes[6]
    &&& d.ip_addr@ == bytes.subrange(7, 23)
    &&& d.power == bytes[23]
}

impl AirPrintAdvertisementData {
    /// Decode a captured byte sequence; fails when the bytes end before the
    /// offsets the layout requires.
    pub fn try_from(value: Vec<u8>) -> (r: Result<AirPrintAdvertisementData, AdvertisementError>)
        ensures
            value@.len() >= 24 ==> (r matches Ok(d) && airprint_decodes_to(value@, d)),
            value@.len() < 24 ==> r == Err::<AirPrintAdvertisementData, AdvertisementError>(
                AdvertisementError::TruncatedInput,
            ),
    {
        if value.len() < 24 {
            return Err(AdvertisementError::TruncatedInput);
        }
        let mut ip_addr = [0u8; 16];
        let mut i: usize = 0;
        while i < 16
            invariant
                i <= 16,
                value@.len() >= 24,
                forall|j: int| 0 <= j < i ==> ip_addr@[j] == value@[j + 7],
            decreases 16 - i,
        {
            ip_addr[i] = value[i + 7];
            i += 1;
        }
        let d = AirPrintAdvertisementData {
            port: (value[5] as u16) * 256 + (value[6] as u16),
            ip_addr,
            power: value[23],
        };
        proof {
            assert(d.ip_addr@ =~= value@.subrange(7, 23));
        }
        Ok(d)
    }
}

/// Decoding an encoded AirPrint record recovers the port, the address and the
/// power level.
pub proof fn lemma_airprint_round_trip(d: AirPrintAdvertisementData)
    ensures
        airprint_decodes_to(d.octets_spec(), d),
{
    let b = d.octets_spec();
    assert(d.port == b[5] * 256 + b[6]) by {
        vstd::arithmetic::div_mod::lemma_fundamental_div_mod(d.port as int, 256);
    }
    assert(b.subrange(7, 23) =~= d.ip_addr@);
}

/// An AirPrint record encodes to the same number of bytes whatever its fields.
pub proof fn lemma_airprint_octets_len(d: AirPrintAdvertisementData)
    ensures
        d.octets_spec().len() == 24,
{
}

/// Data for a FindMy message: twenty-eight bytes of public key material.
#[derive(Clone, Copy, Debug)]
pub struct FindMyAdvertisementData {
    pub public_key: [u8; 28],
}

impl PartialEq for FindMyAdvertisementData {
    fn eq(&self, other: &FindMyAdvertisementData) -> (r: bool) {
        bytes_eq(&self.public_key, &other.public_key)
    }
}

impl vstd::std_specs::cmp::PartialEqSpecImpl for FindMyAdvertisementData {
    open spec fn obeys_eq_spec() -> bool {
        true
    }

    open spec fn eq_spec(&self, other: &FindMyAdvertisementData) -> bool {
        self.public_key@ == other.public_key@
    }
}

impl AdvertisableData for FindMyAdvertisementData {
    /// Tag, length field, a reserved zero byte, the low twenty-two key bytes,
    /// then the key's top two bits shifted into the low bits of one trailing
    /// byte. The key's leading six bytes are not transmitted in the payload:
    /// they travel as the device's own hardware address.
    open spec fn octets_spec(&self) -> Seq<u8> {
        seq![0x12u8, 0x19u8, 0x00u8] + self.public_key@.subrange(6, 28) + seq![
            (self.public_key@[0] >> 6) as u8,
        ]
    }

    fn octets(&self) -> (r: Vec<u8>) {
        let mut v: Vec<u8> = Vec::new();
        v.push(0x12); // Message type
        v.push(0x19); // Message length
        v.push(0x00);
        let mut i: usize = 6;
        while i < 28
            invariant
                6 <= i <= 28,
                v@ =~= seq![0x12u8, 0x19u8, 0x00u8] + self.public_key@.subrange(6, i as int),
            decreases 28 - i,
        {
            v.push(self.public_key[i]);
            i += 1;
        }
        v.push(self.public_key[0] >> 6);
        proof {
            assert(v@ =~= self.octets_spec());
        }
        v
    }
}

/// What a device address and a byte sequence decode to as a FindMy record:
/// the six address bytes supplied out-of-band are the key's leading bytes, and
/// the twenty-two bytes after the header and the reserved byte are the rest.
pub open spec fn findmy_decodes_to(
    addr: Seq<u8>,
    bytes: Seq<u8>,
    d: FindMyAdvertisementData,
) -> bool {
    &&& bytes.len() >= 25
    &&& d.public_key@ == addr + bytes.subrange(3, 25)
}

impl FindMyAdvertisementData {
    /// Decode from the externally observed device address and a captured byte
    /// sequence; fails when the bytes end before the offsets the layout
    /// requires.
    pub fn try_from(value: ([u8; 6], Vec<u8>)) -> (r: Result<
        FindMyAdvertisementData,
        AdvertisementError,
    >)
        ensures
            value.1@.len() >= 25 ==> (r matches Ok(d) && findmy_decodes_to(
                value.0@,
                value.1@,
                d,
            )),
            value.1@.len() < 25 ==> r == Err::<FindMyAdvertisementData, AdvertisementError>(
                AdvertisementError::TruncatedInput,
            ),
    {
        let (addr, bytes) = value;
        if bytes.len() < 25 {
            return Err(AdvertisementError::TruncatedInput);
        }
        let mut public_key = [0u8; 28];
        let mut i: usize = 0;
        while i < 6
            invariant
                i <= 6,
                forall|j: int| 0 <= j < i ==> public_key@[j] == addr@[j],
            decreases 6 - i,
        {
            public_key[i] = addr[i];
            i += 1;
        }
        while i < 28
            invariant
                6 <= i <= 28,
                bytes@.len() >= 25,
                forall|j: int| 0 <= j < 6 ==> public_key@[j] == addr@[j],
                forall|j: int| 6 <= j < i ==> public_key@[j] == bytes@[j - 3],
            decreases 28 - i,
        {
            public_key[i] = bytes[i - 3];
            i += 1;
        }
        let d = FindMyAdvertisementData { public_key };
        proof {
            assert(d.public_key@ =~= addr@ + bytes@.subrange(3, 25));
        }
        Ok(d)
    }

    /// The six key bytes that the transport must adopt as the device's own
    /// hardware address before a FindMy payload is broadcast.
    pub fn address_override(&self) -> (r: [u8; 6])
        ensures
            r@ == self.public_key@.subrange(0, 6),
    {
        let r = [
            self.public_key[0],
            self.public_key[1],
            self.public_key[2],
            self.public_key[3],
            self.public_key[4],
            self.public_key[5],
        ];
        proof {
            assert(r@ =~= self.public_key@.subrange(0, 6));
        }
        r
    }
}

/// Decoding an encoded FindMy record recovers the key, provided the six
/// address bytes supplied out-of-band equal the key's leading six bytes.
pub proof fn lemma_findmy_round_trip(d: FindMyAdvertisementData)
    ensures
        findmy_decodes_to(d.public_key@.subrange(0, 6), d.octets_spec(), d),
{
    assert(d.octets_spec().subrange(3, 25) =~= d.public_key@.subrange(6, 28));
    assert(d.public_key@.subrange(0, 6) + d.public_key@.subrange(6, 28) =~= d.public_key@);
}

/// A FindMy record encodes to the same number of bytes whatever its key.
pub proof fn lemma_findmy_octets_len(d: FindMyAdvertisementData)
    ensures
        d.octets_spec().len() == 26,
{
}

/// The two-byte token for an optional text: the first two digest bytes of the
/// text, an absent text standing for the empty one.
fn derived_token(text: Option<String>) -> (r: [u8; 2])
    ensures
        r@ == sha256_first_two(opt_text(text)),
{
    match text {
        Some(s) => get_first_two_bytes_of_sha256(s.as_str()),
        None => {
            proof {
                reveal_strlit("");
                assert(""@ =~= Seq::<char>::empty());
            }
            get_first_two_bytes_of_sha256("")
        },
    }
}

impl AirDropAdvertisementData {
    /// Build an AirDrop record from the owner's optional identifiers, each
    /// shortened to a two-byte token by the one-way digest.
    pub fn new(apple_id: Option<String>, phone: Option<String>, email: Option<String>) -> (r:
        AirDropAdvertisementData)
        ensures
            r.apple_id@ == sha256_first_two(opt_text(apple_id)),
            r.phone@ == sha256_first_two(opt_text(phone)),
            r.email@ == sha256_first_two(opt_text(email)),
    {
        AirDropAdvertisementData {
            apple_id: derived_token(apple_id),
            phone: derived_token(phone),
            email: derived_token(email),
        }
    }
}

/// A decoded advertisement: which message kind a captured manufacturer-data
/// entry carries, with the record read out of it.
#[derive(Clone, Copy, Debug)]
pub enum AdvertisementType {
    AirDrop(AirDropAdvertisementData),
    /// Carries no dynamic data.
    AirPlaySource,
    AirPlayTarget(AirPlayTargetAdvertisementData),
    AirPrint(AirPrintAdvertisementData),
    FindMy(FindMyAdvertisementData),
}

impl AdvertisementType {
    /// Interpret a manufacturer-data entry by its leading tag byte. The
    /// device's own address is needed for the FindMy kind, whose key is
    /// partly carried there. Unknown tags, an empty entry, and entries too
    /// short for their kind's layout give nothing.
    pub fn from_manufacturer_data(device_address: [u8; 6], data: Vec<u8>) -> (r: Option<
        AdvertisementType,
    >)
        ensures
            data@.len() == 0 ==> r is None,
            data@.len() > 0 && data@[0] == 0x05 ==> (if data@.len() >= 17 {
                r matches Some(AdvertisementType::AirDrop(d)) && airdrop_decodes_to(data@, d)
            } else {
                r is None
            }),
            data@.len() > 0 && data@[0] == 0x0a ==> (r matches Some(t) && t is AirPlaySource),
            data@.len() > 0 && data@[0] == 0x09 ==> (if data@.len() >= 8 {
                r matches Some(AdvertisementType::AirPlayTarget(d)) && airplay_target_decodes_to(
                    data@,
                    d,
                )
            } else {
                r is None
            }),
            data@.len() > 0 && data@[0] == 0x03 ==> (if data@.len() >= 24 {
                r matches Some(AdvertisementType::AirPrint(d)) && airprint_decodes_to(data@, d)
            } else {
                r is None
            }),
            data@.len() > 0 && data@[0] == 0x12 ==> (if data@.len() >= 25 {
                r matches Some(AdvertisementType::FindMy(d)) && findmy_decodes_to(
                    device_address@,
                    data@,
                    d,
                )
            } else {
                r is None
            }),
            data@.len() > 0 && data@[0] != 0x05 && data@[0] != 0x0a && data@[0] != 0x09
                && data@[0] != 0x03 && data@[0] != 0x12 ==> r is None,
    {
        if data.len() == 0 {
            return None;
        }
        let tag = data[0];
        if tag == 0x05 {
            match AirDropAdvertisementData::try_from(data) {
                Ok(d) => Some(AdvertisementType::AirDrop(d)),
                Err(_) => None,
            }
        } else if tag == 0x0a {
            Some(AdvertisementType::AirPlaySource)
        } else if tag == 0x09 {
            match AirPlayTargetAdvertisementData::try_from(data) {
                Ok(d) => Some(AdvertisementType::AirPlayTarget(d)),
                Err(_) => None,
            }
        } else if tag == 0x03 {
            match AirPrintAdvertisementData::try_from(data) {
                Ok(d) => Some(AdvertisementType::AirPrint(d)),
                Err(_) => None,
            }
        } else if tag == 0x12 {
            match FindMyAdvertisementData::try_from((device_address, data)) {
                Ok(d) => Some(AdvertisementType::FindMy(d)),
                Err(_) => None,
            }
        } else {
            None
        }
    }
}

/// Assembly of AirDrop advertisements.
#[derive(Debug)]
pub struct AirDropAdvertisement;

impl AirDropAdvertisement {
    /// Validation hook: AirDrop places no constraint on its record.
    pub fn validate_user_data(_user_data: &AirDropAdvertisementData) -> (r: Result<
        (),
        AdvertisementError,
    >)
        ensures
            r is Ok,
    {
        Ok(())
    }

    /// Wrap a record's encoded payload in the advertisement envelope, under
    /// the transport's visible device name.
    pub fn assemble_advertisement(local_name: String, user_data: &AirDropAdvertisementData) -> (r:
        Result<Advertisement, AdvertisementError>)
        ensures
            r matches Ok(env) && is_apple_envelope(env, local_name@, user_data.octets_spec()),
    {
        Ok(Advertisement::apple(local_name, user_data.octets()))
    }
}

/// Assembly of AirPlay source advertisements.
#[derive(Debug)]
pub struct AirPlaySourceAdvertisement;

impl AirPlaySourceAdvertisement {
    /// Validation hook: the source message places no constraint on its record.
    pub fn validate_user_data(_user_data: &AirPlaySourceAdvertisementData) -> (r: Result<
        (),
        AdvertisementError,
    >)
        ensures
            r is Ok,
    {
        Ok(())
    }

    /// Wrap the constant payload in the advertisement envelope, under the
    /// transport's visible device name.
    pub fn assemble_advertisement(
        local_name: String,
        user_data: &AirPlaySourceAdvertisementData,
    ) -> (r: Result<Advertisement, AdvertisementError>)
        ensures
            r matches Ok(env) && is_apple_envelope(env, local_name@, user_data.octets_spec()),
    {
        Ok(Advertisement::apple(local_name, user_data.octets()))
    }
}

/// Assembly of AirPlay target advertisements.
#[derive(Debug)]
pub struct AirPlayTargetAdvertisement;

impl AirPlayTargetAdvertisement {
    /// Validation hook: the target message places no constraint on its record.
    pub fn validate_user_data(_user_data: &AirPlayTargetAdvertisementData) -> (r: Result<
        (),
        AdvertisementError,
    >)
        ensures
            r is Ok,
    {
        Ok(())
    }

    /// Wrap a record's encoded payload in the advertisement envelope, under
    /// the transport's visible device name.
    pub fn assemble_advertisement(
        local_name: String,
        user_data: &AirPlayTargetAdvertisementData,
    ) -> (r: Result<Advertisement, AdvertisementError>)
        ensures
            r matches Ok(env) && is_apple_envelope(env, local_name@, user_data.octets_spec()),
    {
        Ok(Advertisement::apple(local_name, user_data.octets()))
    }
}

/// Assembly of AirPrint advertisements.
#[derive(Debug)]
pub struct AirPrintAdvertisement;

impl AirPrintAdvertisement {
    /// Validation hook: AirPrint places no constraint on its record.
    pub fn validate_user_data(_user_data: &AirPrintAdvertisementData) -> (r: Result<
        (),
        AdvertisementError,
    >)
        ensures
            r is Ok,
    {
        Ok(())
    }

    /// Wrap a record's encoded payload in the advertisement envelope, under
    /// the transport's visible device name.
    pub fn assemble_advertisement(local_name: String, user_data: &AirPrintAdvertisementData) -> (r:
        Result<Advertisement, AdvertisementError>)
        ensures
            r matches Ok(env) && is_apple_envelope(env, local_name@, user_data.octets_spec()),
    {
        Ok(Advertisement::apple(local_name, user_data.octets()))
    }
}

/// Assembly of FindMy advertisements. Before the envelope is broadcast, the
/// transport must adopt the record's leading key bytes as the device's own
/// hardware address; `FindMyAdvertisementData::address_override` supplies
/// them.
#[derive(Debug)]
pub struct FindMyAdvertisement;

impl FindMyAdvertisement {
    /// Validation hook: FindMy places no constraint on its record.
    pub fn validate_user_data(_user_data: &FindMyAdvertisementData) -> (r: Result<
        (),
        AdvertisementError,
    >)
        ensures
            r is Ok,
    {
        Ok(())
    }

    /// Wrap a record's encoded payload in the advertisement envelope, under
    /// the transport's visible device name.
    pub fn assemble_advertisement(local_name: String, user_data: &FindMyAdvertisementData) -> (r:
        Result<Advertisement, AdvertisementError>)
        ensures
            r matches Ok(env) && is_apple_envelope(env, local_name@, user_data.octets_spec()),
    {
        Ok(Advertisement::apple(local_name, user_data.octets()))
    }
}

} // verus!

