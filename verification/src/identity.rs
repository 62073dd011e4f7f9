//! What a tenant states about itself, and the judgement that a representative
//! passes on it.
//!
//! A field of an identity holds bytes, thirty-two at most, or a digest.

use crate::types::Balance;
use vstd::prelude::*;
use vstd::slice::slice_to_vec;
use vstd::utf8::encode_utf8;

verus! {

/// The largest number of bytes that one field of an identity may hold.
pub const MAX_FIELD_BYTES: usize = 32;

/// One field of an identity: nothing, a short string of bytes, or the digest
/// of a longer one.
#[derive(Clone, Debug)]
pub enum Data {
    Absent,
    /// The bytes themselves, as UTF-8 where they are text.
    Raw(Vec<u8>),
    /// The Blake2 digest of the data.
    BlakeTwo256([u8; 32]),
    /// The SHA2-256 digest of the data.
    Sha256([u8; 32]),
    /// The Keccak-256 digest of the data.
    Keccak256([u8; 32]),
    /// The SHA3-256 digest of the data.
    ShaThree256([u8; 32]),
}

/// The mathematical content of a [`Data`].
pub enum DataView {
    Absent,
    Raw(Seq<u8>),
    BlakeTwo256(Seq<u8>),
    Sha256(Seq<u8>),
    Keccak256(Seq<u8>),
    ShaThree256(Seq<u8>),
}

impl View for Data {
    type V = DataView;

    open spec fn view(&self) -> DataView {
        match self {
            Data::Absent => DataView::Absent,
            Data::Raw(bytes) => DataView::Raw(bytes@),
            Data::BlakeTwo256(digest) => DataView::BlakeTwo256(digest@),
            Data::Sha256(digest) => DataView::Sha256(digest@),
            Data::Keccak256(digest) => DataView::Keccak256(digest@),
            Data::ShaThree256(digest) => DataView::ShaThree256(digest@),
        }
    }
}

impl DataView {
    /// Whether the field is short enough to be recorded: a digest always is,
    /// bytes are if they are no more than [`MAX_FIELD_BYTES`].
    pub open spec fn fits(self) -> bool {
        self matches DataView::Raw(bytes) ==> bytes.len() <= MAX_FIELD_BYTES
    }
}

impl Data {
    /// Whether the field is short enough to be recorded.
    pub fn fits(&self) -> (ok: bool)
        ensures
            ok == self@.fits(),
    {
        match self {
            Data::Raw(bytes) => bytes.len() <= MAX_FIELD_BYTES,
            _ => true,
        }
    }

    /// The field that holds the bytes of `text`.
    pub fn raw(text: &str) -> (data: Data)
        ensures
            data@ == DataView::Raw(encode_utf8(text@)),
    {
        Data::Raw(slice_to_vec(text.as_bytes()))
    }
}

/// The identity that an account states of itself.
#[derive(Clone, Debug)]
pub struct IdentityInfo {
    /// Further fields, each a name and a value.
    pub additional: Vec<(Data, Data)>,
    pub display: Data,
    pub legal: Data,
    pub web: Data,
    pub riot: Data,
    pub email: Data,
    /// The fingerprint of a PGP key, of twenty bytes.
    pub pgp_fingerprint: Option<[u8; 20]>,
    pub image: Data,
    pub twitter: Data,
}

/// The mathematical content of an [`IdentityInfo`].
pub struct IdentityInfoView {
    pub additional: Seq<(DataView, DataView)>,
    pub display: DataView,
    pub legal: DataView,
    pub web: DataView,
    pub riot: DataView,
    pub email: DataView,
    pub pgp_fingerprint: Option<Seq<u8>>,
    pub image: DataView,
    pub twitter: DataView,
}

impl View for IdentityInfo {
    type V = IdentityInfoView;

    open spec fn view(&self) -> IdentityInfoView {
        IdentityInfoView {
            additional: Seq::new(
                self.additional@.len(),
                |i: int| (self.additional@[i].0@, self.additional@[i].1@),
            ),
            display: self.display@,
            legal: self.legal@,
            web: self.web@,
            riot: self.riot@,
            email: self.email@,
            pgp_fingerprint: match self.pgp_fingerprint {
                Some(fingerprint) => Some(fingerprint@),
                None => None,
            },
            image: self.image@,
            twitter: self.twitter@,
        }
    }
}

impl IdentityInfoView {
    /// Whether every field is short enough to be recorded.
    pub open spec fn is_valid(self) -> bool {
        &&& forall|i: int|
            0 <= i < self.additional.len() ==> (#[trigger] self.additional[i]).0.fits()
                && self.additional[i].1.fits()
        &&& self.display.fits()
        &&& self.legal.fits()
        &&& self.web.fits()
        &&& self.riot.fits()
        &&& self.email.fits()
        &&& self.image.fits()
        &&& self.twitter.fits()
    }
}

impl IdentityInfo {
    /// Whether every field is short enough to be recorded.
    pub open spec fn spec_is_valid(&self) -> bool {
        self@.is_valid()
    }

    /// Whether every field is short enough to be recorded.
    #[verifier::when_used_as_spec(spec_is_valid)]
    pub fn is_valid(&self) -> (ok: bool)
        ensures
            ok == self@.is_valid(),
    {
        let mut i: usize = 0;
        while i < self.additional.len()
            invariant
                i <= self.additional@.len(),
                forall|j: int|
                    0 <= j < i ==> (#[trigger] self@.additional[j]).0.fits()
                        && self@.additional[j].1.fits(),
            decreases self.additional@.len() - i,
        {
            if !self.additional[i].0.fits() || !self.additional[i].1.fits() {
                assert(!self@.additional[i as int].0.fits() || !self@.additional[i as int].1.fits());
                return false;
            }
            assert(self@.additional[i as int].0.fits() && self@.additional[i as int].1.fits());
            i += 1;
        }
        self.display.fits() && self.legal.fits() && self.web.fits() && self.riot.fits()
            && self.email.fits() && self.image.fits() && self.twitter.fits()
    }
}

/// The opinion that a registrar holds of an identity.
#[derive(Clone, Copy, PartialEq, Eq, Structural, Debug)]
pub enum Judgement {
    /// No opinion is held.
    Unknown,
    /// No opinion yet, but a fee was paid for one.
    FeePaid(Balance),
    /// The data looks acceptable.
    Reasonable,
    /// The registrar vouches for the data.
    KnownGood,
    /// The data was once good.
    OutOfDate,
    /// The data is too imprecise.
    LowQuality,
    /// The data is wrong.
    Erroneous,
}

impl Judgement {
    /// Whether the judgement lets its subject stand for election as a tenant.
    pub open spec fn spec_is_favourable(&self) -> bool {
        *self == Judgement::Reasonable || *self == Judgement::KnownGood
    }

    /// Whether the judgement lets its subject stand for election as a tenant.
    #[verifier::when_used_as_spec(spec_is_favourable)]
    pub fn is_favourable(&self) -> (ok: bool)
        ensures
            ok == self.spec_is_favourable(),
    {
        match self {
            Judgement::Reasonable => true,
            Judgement::KnownGood => true,
            _ => false,
        }
    }
}

fn tenant_info(
    address: &str,
    salary: &str,
    display: &str,
    legal: &str,
    web: &str,
) -> (info: IdentityInfo)
    ensures
        info@ == sample_view(address@, salary@, display@, legal@, web@),
{
    let mut additional: Vec<(Data, Data)> = Vec::new();
    additional.push((Data::raw("Present Address"), Data::raw(address)));
    additional.push((Data::raw("Monthly Salary"), Data::raw(salary)));
    let info = IdentityInfo {
        additional,
        display: Data::raw(display),
        legal: Data::raw(legal),
        web: Data::raw(web),
        riot: Data::Absent,
        email: Data::Absent,
        pgp_fingerprint: None,
        image: Data::Absent,
        twitter: Data::Absent,
    };
    assert(info@.additional =~= sample_view(
        address@,
        salary@,
        display@,
        legal@,
        web@,
    ).additional);
    info
}

/// The identity of a sample tenant: an address and a salary as further fields,
/// a display name, a legal name and a website, each as the bytes of its text.
pub open spec fn sample_view(
    address: Seq<char>,
    salary: Seq<char>,
    display: Seq<char>,
    legal: Seq<char>,
    web: Seq<char>,
) -> IdentityInfoView {
    IdentityInfoView {
        additional: seq![
            (DataView::Raw(encode_utf8("Present Address"@)), DataView::Raw(encode_utf8(address))),
            (DataView::Raw(encode_utf8("Monthly Salary"@)), DataView::Raw(encode_utf8(salary))),
        ],
        display: DataView::Raw(encode_utf8(display)),
        legal: DataView::Raw(encode_utf8(legal)),
        web: DataView::Raw(encode_utf8(web)),
        riot: DataView::Absent,
        email: DataView::Absent,
        pgp_fingerprint: None,
        image: DataView::Absent,
        twitter: DataView::Absent,
    }
}

/// The identity of the first sample tenant, who lives in Yokohama.
pub fn ten0() -> (info: IdentityInfo)
    ensures
        info@ == sample_view(
            "Japan/Yokohama"@,
            "250,000 yen"@,
            "ten0"@,
            "Legal infos about tenant_0"@,
            "www.mystery0.com"@,
        ),
{
    tenant_info(
        "Japan/Yokohama",
        "250,000 yen",
        "ten0",
        "Legal infos about tenant_0",
        "www.mystery0.com",
    )
}

/// The identity of the second sample tenant, who lives in Liverpool.
pub fn ten1() -> (info: IdentityInfo)
    ensures
        info@ == sample_view(
            "England/Liverpool"@,
            "1550 pounds"@,
            "ten1"@,
            "Legal info about tenant_1"@,
            "www.mystery1.com"@,
        ),
{
    tenant_info(
        "England/Liverpool",
        "1550 pounds",
        "ten1",
        "Legal info about tenant_1",
        "www.mystery1.com",
    )
}

} // verus!
