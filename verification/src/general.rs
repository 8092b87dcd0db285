//! # AWS Resource IDs in a General Format
//!
//! This module handles AWS resource IDs that follow a specific format:
//!
//! 1. Prefix: a short string specific to each resource type (e.g., `ami-` for
//!    AMIs)
//! 2. Identifier: an 8 or 17 character unique string of ASCII letters and
//!    digits
//!
//! The rule is stated once, by [`validate`], over the characters of the input,
//! and [`parse_unique_part`] implements it on the bytes of a string.
//! [`ResourceId`] instantiates the rule for a resource type, described by a
//! [`ResourceKind`].
use core::marker::PhantomData;
use core::str::FromStr;
use vstd::prelude::*;
use vstd::string::*;

use crate::text::{
    all_alphanumeric, all_alphanumeric_bytes, ascii_bytes, ascii_str, ascii_text,
    byte_is_alphanumeric, decimal, decimal_string, is_alphanumeric, is_alphanumeric_byte,
    lemma_alphanumeric_bytes, lemma_alphanumeric_encoding, lemma_ascii_bytes_text,
    lemma_ascii_text_bytes, lemma_prefix_encoding, starts_with,
};
use crate::{Error, Failure};

pub mod kinds;
pub mod order;

pub use kinds::{
    AmiKind, AwsAmiId, AwsCloudFormationStackId, AwsCustomerGatewayId, AwsEfsFileSystemId,
    AwsEfsMountTargetId, AwsElasticBeanstalkEnvironmentId, AwsElasticIpId, AwsInstanceId,
    AwsInternetGatewayId, AwsKeyPairId, AwsLoadBalancerId, AwsNatGatewayId, AwsNetworkAclId,
    AwsNetworkInterfaceId, AwsPlacementGroupId, AwsRdsInstanceId, AwsRedshiftClusterId,
    AwsRouteTableId, AwsSecurityGroupId, AwsSnapshotId, AwsSubnetId, AwsTargetGroupId,
    AwsTransitGatewayAttachmentId, AwsTransitGatewayId, AwsVolumeId, AwsVpcId, AwsVpnConnectionId,
    AwsVpnGatewayId, CloudFormationStackKind, CustomerGatewayKind, EfsFileSystemKind,
    EfsMountTargetKind, ElasticBeanstalkEnvironmentKind, ElasticIpKind, InstanceKind,
    InternetGatewayKind, KeyPairKind, LoadBalancerKind, NatGatewayKind, NetworkAclKind,
    NetworkInterfaceKind, PlacementGroupKind, RdsInstanceKind, RedshiftClusterKind, RouteTableKind,
    SecurityGroupKind, SnapshotKind, SubnetKind, TargetGroupKind, TransitGatewayAttachmentKind,
    TransitGatewayKind, VolumeKind, VpcKind, VpnConnectionKind, VpnGatewayKind,
};

verus! {

/// Specific details about errors encountered when parsing AWS resource IDs in
/// the general format
#[derive(Debug)]
pub enum GeneralResourceErrorDetail {
    /// Incorrect prefix for the resource type
    WrongPrefix(&'static str),
    /// Invalid length of the unique identifier part
    IdLength(usize),
    /// The unique identifier contains invalid characters
    NonAsciiAlphanumeric,
}

/// Why an input is not an ID of a resource type: the model of a
/// [`GeneralResourceErrorDetail`].
pub enum Reason {
    /// The input does not start with the prefix, which is given.
    WrongPrefix(Seq<char>),
    /// The unique part has the given number of characters, which is neither 8
    /// nor 17.
    IdLength(nat),
    /// The unique part holds a character that is no ASCII letter or digit.
    NonAsciiAlphanumeric,
}

impl View for GeneralResourceErrorDetail {
    type V = Reason;

    open spec fn view(&self) -> Reason {
        match self {
            GeneralResourceErrorDetail::WrongPrefix(p) => Reason::WrongPrefix(p@),
            GeneralResourceErrorDetail::IdLength(n) => Reason::IdLength(*n as nat),
            GeneralResourceErrorDetail::NonAsciiAlphanumeric => Reason::NonAsciiAlphanumeric,
        }
    }
}

impl Reason {
    /// The text that describes the reason.
    pub open spec fn message(self) -> Seq<char> {
        match self {
            Reason::WrongPrefix(prefix) => "incorrect prefix, expected \""@ + prefix + "\""@,
            Reason::IdLength(n) => "the unique part must be 8 or 17, not "@ + decimal(n)
                + " characters long"@,
            Reason::NonAsciiAlphanumeric => "the unique part contains non ascii alphanumeric characters"@,
        }
    }
}

impl GeneralResourceErrorDetail {
    /// The text that describes the detail.
    pub fn to_string(&self) -> (r: String)
        ensures
            r@ == self@.message(),
    {
        match self {
            GeneralResourceErrorDetail::WrongPrefix(prefix) => {
                let mut out = "incorrect prefix, expected \"".to_owned();
                out.append(prefix);
                out.append("\"");
                out
            },
            GeneralResourceErrorDetail::IdLength(n) => {
                let mut out = "the unique part must be 8 or 17, not ".to_owned();
                let digits = decimal_string(*n);
                out.append(digits.as_str());
                out.append(" characters long");
                out
            },
            GeneralResourceErrorDetail::NonAsciiAlphanumeric => {
                "the unique part contains non ascii alphanumeric characters".to_owned()
            },
        }
    }
}

/// Error encountered when parsing an AWS resource ID in the general format
#[derive(Debug)]
pub struct GeneralResourceError {
    /// The AWS resource type being parsed (e.g., `AwsAmiId`)
    target_type: &'static str,
    /// The input string that failed to parse
    input: String,
    /// Detailed description of the error
    error_detail: GeneralResourceErrorDetail,
}

/// What a [`GeneralResourceError`] says: its model.
pub struct GeneralFailure {
    /// The name of the resource type that was asked for.
    pub target_type: Seq<char>,
    /// The input, as it was given.
    pub input: Seq<char>,
    /// Why the input is no ID of that type.
    pub reason: Reason,
}

impl GeneralFailure {
    /// The text of the error.
    pub open spec fn message(self) -> Seq<char> {
        "failed to initialize "@ + self.target_type + " from \""@ + self.input + "\": "@
            + self.reason.message()
    }
}

impl View for GeneralResourceError {
    type V = GeneralFailure;

    closed spec fn view(&self) -> GeneralFailure {
        GeneralFailure {
            target_type: self.target_type@,
            input: self.input@,
            reason: self.error_detail@,
        }
    }
}

impl GeneralResourceError {
    /// The error that says why `input` is no ID of the type `target_type`.
    pub fn new(
        target_type: &'static str,
        input: &str,
        error_detail: GeneralResourceErrorDetail,
    ) -> (r: Self)
        ensures
            r@ == (GeneralFailure {
                target_type: target_type@,
                input: input@,
                reason: error_detail@,
            }),
    {
        Self { target_type, input: input.to_owned(), error_detail }
    }

    /// The name of the resource type that was asked for.
    pub fn target_type(&self) -> (r: &'static str)
        ensures
            r@ == self@.target_type,
    {
        self.target_type
    }

    /// The input, as it was given.
    pub fn input(&self) -> (r: &str)
        ensures
            r@ == self@.input,
    {
        self.input.as_str()
    }

    /// Why the input is no ID of that type.
    pub fn error_detail(&self) -> (r: &GeneralResourceErrorDetail)
        ensures
            r@ == self@.reason,
    {
        &self.error_detail
    }

    /// The text of the error.
    pub fn to_string(&self) -> (r: String)
        ensures
            r@ == self@.message(),
    {
        let mut out = "failed to initialize ".to_owned();
        out.append(self.target_type);
        out.append(" from \"");
        out.append(self.input.as_str());
        out.append("\": ");
        let detail = self.error_detail.to_string();
        out.append(detail.as_str());
        out
    }
}

/// The unique alphanumeric part of an AWS resource id in the general format
#[derive(Copy, Clone, Debug, Eq, Ord, Hash)]
pub enum UniquePart {
    /// The short form, in use before 2016
    C8([u8; 8]),
    /// The long form
    C17([u8; 17]),
}

impl UniquePart {
    /// The bytes of the unique part, 8 or 17 of them.
    pub open spec fn bytes(self) -> Seq<u8> {
        match self {
            UniquePart::C8(x) => x@,
            UniquePart::C17(x) => x@,
        }
    }

    /// True when every byte is the code of an ASCII letter or digit.
    pub open spec fn is_alphanumeric(self) -> bool {
        all_alphanumeric_bytes(self.bytes())
    }

    /// The bytes of the unique part.
    pub fn as_slice(&self) -> (r: &[u8])
        ensures
            r@ == self.bytes(),
            r@.len() == 8 || r@.len() == 17,
    {
        match self {
            UniquePart::C8(x) => x.as_slice(),
            UniquePart::C17(x) => x.as_slice(),
        }
    }
}

/// The rule of the general format. An input that starts with `prefix`,
/// followed by 8 or 17 ASCII letters and digits, gives the bytes of those
/// characters. Any other input gives the first reason that applies: the prefix
/// is checked first, then the alphabet of what follows it, then its length.
pub open spec fn validate(prefix: Seq<char>, raw: Seq<char>) -> Result<Seq<u8>, Reason> {
    let unique = raw.skip(prefix.len() as int);
    if !prefix.is_prefix_of(raw) {
        Err(Reason::WrongPrefix(prefix))
    } else if !all_alphanumeric(unique) {
        Err(Reason::NonAsciiAlphanumeric)
    } else if unique.len() != 8 && unique.len() != 17 {
        Err(Reason::IdLength(unique.len()))
    } else {
        Ok(ascii_bytes(unique))
    }
}

/// The canonical text of an ID: the prefix, then the unique part read as ASCII.
pub open spec fn render(prefix: Seq<char>, unique: Seq<u8>) -> Seq<char> {
    prefix + ascii_text(unique)
}

/// Copies `N` bytes of `src`, from index `start` on, into an array.
fn copy_array<const N: usize>(src: &[u8], start: usize) -> (r: [u8; N])
    requires
        start + N <= src@.len(),
    ensures
        r@ == src@.subrange(start as int, start + N),
{
    let mut arr = [0u8;N];
    let len: usize = src.len();
    let mut i: usize = 0;
    while i < N
        invariant
            i <= N,
            start + N <= len == src@.len(),
            forall|j: int| 0 <= j < i ==> arr@[j] == src@[start + j],
        decreases N - i,
    {
        arr[i] = src[start + i];
        i += 1;
    }
    assert(arr@ =~= src@.subrange(start as int, start + N));
    arr
}

/// Checks `s` against the rule of the general format for the given prefix, and
/// returns its unique part.
pub fn parse_unique_part(s: &str, prefix: &'static str) -> (r: Result<
    UniquePart,
    GeneralResourceErrorDetail,
>)
    ensures
        match r {
            Ok(unique) => validate(prefix@, s@) == Ok::<Seq<u8>, Reason>(unique.bytes()),
            Err(detail) => validate(prefix@, s@) == Err::<Seq<u8>, Reason>(detail@),
        },
{
    if !starts_with(s, prefix) {
        return Err(GeneralResourceErrorDetail::WrongPrefix(prefix));
    }
    let bytes = s.as_bytes();
    let start: usize = prefix.as_bytes().len();
    let ghost unique = s@.skip(prefix@.len() as int);
    proof {
        lemma_prefix_encoding(prefix@, s@);
        lemma_alphanumeric_bytes(unique);
    }
    assert(bytes@.skip(start as int) == vstd::utf8::encode_utf8(unique));
    let mut i: usize = start;
    while i < bytes.len()
        invariant
            start <= i <= bytes.len(),
            bytes@.skip(start as int) == vstd::utf8::encode_utf8(unique),
            all_alphanumeric(unique) <==> all_alphanumeric_bytes(vstd::utf8::encode_utf8(unique)),
            validate(prefix@, s@) == (if !all_alphanumeric(unique) {
                Err::<Seq<u8>, Reason>(Reason::NonAsciiAlphanumeric)
            } else if unique.len() != 8 && unique.len() != 17 {
                Err(Reason::IdLength(unique.len()))
            } else {
                Ok(ascii_bytes(unique))
            }),
            forall|j: int| start <= j < i ==> is_alphanumeric_byte(bytes@[j]),
        decreases bytes.len() - i,
    {
        if !byte_is_alphanumeric(bytes[i]) {
            assert(!is_alphanumeric_byte(bytes@.skip(start as int)[i - start]));
            return Err(GeneralResourceErrorDetail::NonAsciiAlphanumeric);
        }
        i += 1;
    }
    proof {
        assert forall|j: int| 0 <= j < bytes@.skip(start as int).len() implies is_alphanumeric_byte(
            #[trigger] bytes@.skip(start as int)[j],
        ) by {
            assert(is_alphanumeric_byte(bytes@[start + j]));
        }
        lemma_alphanumeric_encoding(unique);
    }
    let n: usize = bytes.len() - start;
    if n == 8 {
        Ok(UniquePart::C8(copy_array::<8>(bytes, start)))
    } else if n == 17 {
        Ok(UniquePart::C17(copy_array::<17>(bytes, start)))
    } else {
        Err(GeneralResourceErrorDetail::IdLength(n))
    }
}

/// True of the bytes that an ID can hold as its unique part: 8 or 17 codes of
/// ASCII letters and digits.
pub open spec fn is_unique_part(bytes: Seq<u8>) -> bool {
    (bytes.len() == 8 || bytes.len() == 17) && all_alphanumeric_bytes(bytes)
}

/// A type of AWS resource whose IDs follow the general format.
pub trait ResourceKind: Sized {
    /// The prefix that the IDs of this resource type start with.
    spec fn spec_prefix() -> Seq<char>;

    /// The name of the ID type of this resource type.
    spec fn spec_name() -> Seq<char>;

    /// The prefix that the IDs of this resource type start with.
    fn prefix() -> (r: &'static str)
        ensures
            r@ == Self::spec_prefix(),
    ;

    /// The name of the ID type of this resource type.
    fn name() -> (r: &'static str)
        ensures
            r@ == Self::spec_name(),
    ;

    /// The prefix ends with a character that is no letter or digit, so that
    /// it is plain where the unique part begins.
    proof fn lemma_prefix_ends()
        ensures
            Self::spec_prefix().len() > 0,
            !is_alphanumeric(Self::spec_prefix().last()),
    ;
}

/// The name of the ID type of a resource type, without a path.
pub fn short_type_name<K: ResourceKind>() -> (r: &'static str)
    ensures
        r@ == K::spec_name(),
{
    K::name()
}

/// The ID of a resource of the type `K`. A value exists only for a unique part
/// of 8 or 17 ASCII letters and digits, and is never changed.
#[derive(Copy, Debug, Eq, Ord, Hash)]
pub struct ResourceId<K: ResourceKind> {
    unique: UniquePart,
    kind: PhantomData<K>,
}

impl<K: ResourceKind> Clone for ResourceId<K> {
    /// A copy of the ID.
    fn clone(&self) -> (r: Self)
        ensures
            r == *self,
    {
        proof {
            use_type_invariant(self);
        }
        ResourceId { unique: self.unique, kind: PhantomData }
    }
}

impl<K: ResourceKind> View for ResourceId<K> {
    type V = Seq<u8>;

    /// The bytes of the unique part.
    closed spec fn view(&self) -> Seq<u8> {
        self.unique.bytes()
    }
}

impl<K: ResourceKind> ResourceId<K> {
    #[verifier::type_invariant]
    spec fn well_formed(self) -> bool {
        self.unique.is_alphanumeric()
    }

    /// The canonical text of the ID.
    pub open spec fn text(self) -> Seq<char> {
        render(K::spec_prefix(), self@)
    }

    /// The text that describes the ID to a developer: the name of its type,
    /// and in brackets its canonical text in quotes.
    pub open spec fn debug_text(self) -> Seq<char> {
        K::spec_name() + "(\""@ + self.text() + "\")"@
    }

    /// What parsing `raw` gives: the bytes of the unique part, or the error
    /// that names the type, holds `raw` and says which rule it breaks.
    pub open spec fn parse_spec(raw: Seq<char>) -> Result<Seq<u8>, Failure> {
        match validate(K::spec_prefix(), raw) {
            Ok(unique) => Ok(unique),
            Err(reason) => Err(
                Failure::General(
                    GeneralFailure { target_type: K::spec_name(), input: raw, reason },
                ),
            ),
        }
    }

    /// The bytes of the unique part.
    pub fn unique_part(&self) -> (r: &[u8])
        ensures
            r@ == self@,
            is_unique_part(self@),
    {
        proof {
            use_type_invariant(self);
        }
        self.unique.as_slice()
    }

    /// The canonical text of the ID: the prefix of its type, then the unique
    /// part.
    pub fn to_string(&self) -> (r: String)
        ensures
            r@ == self.text(),
    {
        let mut out = K::prefix().to_owned();
        out.append(ascii_str(self.unique_part()));
        out
    }

    /// The text that describes the ID to a developer.
    pub fn debug_string(&self) -> (r: String)
        ensures
            r@ == self.debug_text(),
    {
        let mut out = short_type_name::<K>().to_owned();
        out.append("(\"");
        let text = self.to_string();
        out.append(text.as_str());
        out.append("\")");
        out
    }
}

impl<K: ResourceKind> TryFrom<&str> for ResourceId<K> {
    type Error = Error;

    /// Checks the string against the rule of the general format, with the
    /// prefix of the type.
    fn try_from(s: &str) -> (r: Result<Self, Error>)
        ensures
            match r {
                Ok(id) => Self::parse_spec(s@) == Ok::<Seq<u8>, Failure>(id@),
                Err(e) => Self::parse_spec(s@) == Err::<Seq<u8>, Failure>(e@),
            },
    {
        match parse_unique_part(s, K::prefix()) {
            Ok(unique) => {
                proof {
                    lemma_validate_ok(K::spec_prefix(), s@);
                }
                Ok(ResourceId { unique, kind: PhantomData })
            },
            Err(detail) => Err(
                Error::General(GeneralResourceError::new(short_type_name::<K>(), s, detail)),
            ),
        }
    }
}

/// What `try_from` returns is stated by its `ensures`: an error holds a
/// `String`, which no spec function can build.
impl<K: ResourceKind> vstd::std_specs::convert::TryFromSpecImpl<&str> for ResourceId<K> {
    open spec fn obeys_try_from_spec() -> bool {
        false
    }

    open spec fn try_from_spec(s: &str) -> Result<Self, Error> {
        arbitrary()
    }
}

impl<K: ResourceKind> TryFrom<String> for ResourceId<K> {
    type Error = Error;

    /// Checks the string as `try_from` does for a `&str`.
    fn try_from(s: String) -> (r: Result<Self, Error>)
        ensures
            match r {
                Ok(id) => Self::parse_spec(s@) == Ok::<Seq<u8>, Failure>(id@),
                Err(e) => Self::parse_spec(s@) == Err::<Seq<u8>, Failure>(e@),
            },
    {
        Self::try_from(s.as_str())
    }
}

/// What `try_from` returns is stated by its `ensures`: an error holds a
/// `String`, which no spec function can build.
impl<K: ResourceKind> vstd::std_specs::convert::TryFromSpecImpl<String> for ResourceId<K> {
    open spec fn obeys_try_from_spec() -> bool {
        false
    }

    open spec fn try_from_spec(s: String) -> Result<Self, Error> {
        arbitrary()
    }
}

impl<K: ResourceKind> TryFrom<&String> for ResourceId<K> {
    type Error = Error;

    /// Checks the string as `try_from` does for a `&str`.
    fn try_from(s: &String) -> (r: Result<Self, Error>)
        ensures
            match r {
                Ok(id) => Self::parse_spec(s@) == Ok::<Seq<u8>, Failure>(id@),
                Err(e) => Self::parse_spec(s@) == Err::<Seq<u8>, Failure>(e@),
            },
    {
        Self::try_from(s.as_str())
    }
}

/// What `try_from` returns is stated by its `ensures`: an error holds a
/// `String`, which no spec function can build.
impl<K: ResourceKind> vstd::std_specs::convert::TryFromSpecImpl<&String> for ResourceId<K> {
    open spec fn obeys_try_from_spec() -> bool {
        false
    }

    open spec fn try_from_spec(s: &String) -> Result<Self, Error> {
        arbitrary()
    }
}

impl<K: ResourceKind> FromStr for ResourceId<K> {
    type Err = Error;

    /// Checks the string as `try_from` does.
    fn from_str(s: &str) -> (r: Result<Self, Error>)
        ensures
            match r {
                Ok(id) => Self::parse_spec(s@) == Ok::<Seq<u8>, Failure>(id@),
                Err(e) => Self::parse_spec(s@) == Err::<Seq<u8>, Failure>(e@),
            },
    {
        Self::try_from(s)
    }
}

impl<K: ResourceKind> From<ResourceId<K>> for String {
    /// The canonical text of the ID.
    fn from(value: ResourceId<K>) -> (r: String)
        ensures
            r@ == value.text(),
    {
        value.to_string()
    }
}

/// What `from` returns is stated by its `ensures`: no spec function can build
/// a `String`.
impl<K: ResourceKind> vstd::std_specs::convert::FromSpecImpl<ResourceId<K>> for String {
    open spec fn obeys_from_spec() -> bool {
        false
    }

    open spec fn from_spec(value: ResourceId<K>) -> String {
        arbitrary()
    }
}

/// What the rule accepts is a unique part: 8 or 17 alphanumeric codes.
pub proof fn lemma_validate_ok(prefix: Seq<char>, raw: Seq<char>)
    ensures
        validate(prefix, raw) matches Ok(unique) ==> is_unique_part(unique),
{
    if validate(prefix, raw) is Ok {
        lemma_ascii_bytes_text(raw.skip(prefix.len() as int));
    }
}

/// Acceptance: the prefix followed by 8 or 17 ASCII letters and digits is
/// accepted, and its unique part is made of the codes of those characters.
pub proof fn lemma_accepts(prefix: Seq<char>, suffix: Seq<char>)
    requires
        all_alphanumeric(suffix),
        suffix.len() == 8 || suffix.len() == 17,
    ensures
        validate(prefix, prefix + suffix) == Ok::<Seq<u8>, Reason>(ascii_bytes(suffix)),
{
    let raw = prefix + suffix;
    assert(raw.subrange(0, prefix.len() as int) =~= prefix);
    assert(raw.skip(prefix.len() as int) =~= suffix);
}

/// Round trip: the canonical text of what an accepted input parses to is the
/// input itself.
pub proof fn lemma_render_validate(prefix: Seq<char>, raw: Seq<char>)
    ensures
        validate(prefix, raw) matches Ok(unique) ==> render(prefix, unique) == raw,
{
    if validate(prefix, raw) is Ok {
        let suffix = raw.skip(prefix.len() as int);
        lemma_ascii_bytes_text(suffix);
        assert(raw =~= prefix + suffix);
    }
}

/// Right inverse: the canonical text of a unique part is accepted, and parses
/// to that unique part.
pub proof fn lemma_validate_render(prefix: Seq<char>, unique: Seq<u8>)
    requires
        is_unique_part(unique),
    ensures
        validate(prefix, render(prefix, unique)) == Ok::<Seq<u8>, Reason>(unique),
{
    lemma_ascii_text_bytes(unique);
    lemma_accepts(prefix, ascii_text(unique));
}

/// An input is accepted under at most one of two different prefixes that end
/// with a character that is no letter or digit.
pub proof fn lemma_one_prefix(p: Seq<char>, q: Seq<char>, raw: Seq<char>)
    requires
        p != q,
        p.len() > 0 && !is_alphanumeric(p.last()),
        q.len() > 0 && !is_alphanumeric(q.last()),
    ensures
        !(validate(p, raw) is Ok && validate(q, raw) is Ok),
{
    if validate(p, raw) is Ok && validate(q, raw) is Ok {
        if p.len() == q.len() {
            assert(p =~= q);
        } else if p.len() < q.len() {
            assert(is_alphanumeric(raw.skip(p.len() as int)[q.len() - 1 - p.len()]));
            assert(q.last() == raw.subrange(0, q.len() as int)[q.len() - 1]);
        } else {
            assert(is_alphanumeric(raw.skip(q.len() as int)[p.len() - 1 - q.len()]));
            assert(p.last() == raw.subrange(0, p.len() as int)[p.len() - 1]);
        }
    }
}

/// Acceptance and round trip for the IDs of a resource type: its prefix
/// followed by 8 or 17 ASCII letters and digits parses to an ID, and the
/// canonical text of that ID is the input.
pub proof fn lemma_round_trip<K: ResourceKind>(suffix: Seq<char>, id: ResourceId<K>)
    requires
        all_alphanumeric(suffix),
        suffix.len() == 8 || suffix.len() == 17,
        id@ == ascii_bytes(suffix),
    ensures
        ResourceId::<K>::parse_spec(K::spec_prefix() + suffix) == Ok::<Seq<u8>, Failure>(id@),
        id.text() == K::spec_prefix() + suffix,
{
    lemma_accepts(K::spec_prefix(), suffix);
    lemma_render_validate(K::spec_prefix(), K::spec_prefix() + suffix);
}

/// The canonical text of the ID that an input parses to is that input.
pub proof fn lemma_text_of_parsed<K: ResourceKind>(raw: Seq<char>, id: ResourceId<K>)
    requires
        ResourceId::<K>::parse_spec(raw) == Ok::<Seq<u8>, Failure>(id@),
    ensures
        id.text() == raw,
{
    lemma_render_validate(K::spec_prefix(), raw);
}

/// Parsing the canonical text of an ID gives the ID again.
pub proof fn lemma_parse_of_text<K: ResourceKind>(id: ResourceId<K>)
    requires
        is_unique_part(id@),
    ensures
        ResourceId::<K>::parse_spec(id.text()) == Ok::<Seq<u8>, Failure>(id@),
{
    lemma_validate_render(K::spec_prefix(), id@);
}

/// Distinctness: IDs of two resource types with different prefixes never have
/// the same canonical text, and no input is an ID of both types.
pub proof fn lemma_kinds_distinct<K: ResourceKind, L: ResourceKind>(
    a: ResourceId<K>,
    b: ResourceId<L>,
    raw: Seq<char>,
)
    requires
        K::spec_prefix() != L::spec_prefix(),
        is_unique_part(a@),
        is_unique_part(b@),
    ensures
        a.text() != b.text(),
        !(ResourceId::<K>::parse_spec(raw) is Ok && ResourceId::<L>::parse_spec(raw) is Ok),
{
    K::lemma_prefix_ends();
    L::lemma_prefix_ends();
    lemma_one_prefix(K::spec_prefix(), L::spec_prefix(), raw);
    lemma_one_prefix(K::spec_prefix(), L::spec_prefix(), a.text());
    lemma_validate_render(K::spec_prefix(), a@);
    lemma_validate_render(L::spec_prefix(), b@);
}

} // verus!
