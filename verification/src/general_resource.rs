//! # IDs following the general AWS resources format
//!
//! The general resource consists of two parts:
//! - a prefix identifying the resource e.g. `ami-` for AMI
//! - a random alphanumeric 8 or 17 characters long unique string
//!
//! This module offers the IDs of two resource types, AMI and snapshot, as
//! types of their own, with an error type of their own. The rule is the one of
//! [`crate::general`]: [`validate`] states it.
use vstd::prelude::*;
use vstd::string::*;

use crate::general::{
    is_unique_part, lemma_validate_ok, parse_unique_part, render, validate, GeneralFailure,
    GeneralResourceErrorDetail, Reason, ResourceKind, UniquePart,
};
use crate::text::{ascii_str, decimal, decimal_string};

pub mod order;

verus! {

/// Details on general AWS resource error
#[derive(Debug)]
pub enum ErrorDetail {
    /// Wrong prefix, e.g. not an `ami-` for [`AwsAmiId`]
    WrongPrefix(&'static str),
    /// Wrong length of the unique part of the ID
    IdLength(usize),
    /// The unique part of the ID contains non-alphanumeric-ASCII characters
    NonAsciiAlphanumeric,
}

impl View for ErrorDetail {
    type V = Reason;

    open spec fn view(&self) -> Reason {
        match self {
            ErrorDetail::WrongPrefix(p) => Reason::WrongPrefix(p@),
            ErrorDetail::IdLength(n) => Reason::IdLength(*n as nat),
            ErrorDetail::NonAsciiAlphanumeric => Reason::NonAsciiAlphanumeric,
        }
    }
}

impl ErrorDetail {
    /// The text that describes a reason, in the words of this module.
    pub open spec fn message(reason: Reason) -> Seq<char> {
        match reason {
            Reason::WrongPrefix(prefix) => "wrong prefix, expected "@ + prefix,
            Reason::IdLength(n) => "the unique part must be 8 or 17 characters, not "@ + decimal(n)
                + " long"@,
            Reason::NonAsciiAlphanumeric => "the unique part contains non ascii alfanumeric characters"@,
        }
    }

    /// The text that describes the detail.
    pub fn to_string(&self) -> (r: String)
        ensures
            r@ == Self::message(self@),
    {
        match self {
            ErrorDetail::WrongPrefix(prefix) => {
                let mut out = "wrong prefix, expected ".to_owned();
                out.append(prefix);
                out
            },
            ErrorDetail::IdLength(n) => {
                let mut out = "the unique part must be 8 or 17 characters, not ".to_owned();
                let digits = decimal_string(*n);
                out.append(digits.as_str());
                out.append(" long");
                out
            },
            ErrorDetail::NonAsciiAlphanumeric => {
                "the unique part contains non ascii alfanumeric characters".to_owned()
            },
        }
    }

    /// The detail of this module that says what `detail` says.
    fn from_general(detail: GeneralResourceErrorDetail) -> (r: Self)
        ensures
            r@ == detail@,
    {
        match detail {
            GeneralResourceErrorDetail::WrongPrefix(prefix) => ErrorDetail::WrongPrefix(prefix),
            GeneralResourceErrorDetail::IdLength(n) => ErrorDetail::IdLength(n),
            GeneralResourceErrorDetail::NonAsciiAlphanumeric => ErrorDetail::NonAsciiAlphanumeric,
        }
    }
}

/// General AWS resource error
#[derive(Debug)]
pub struct Error {
    /// Target type e.g. [`AwsAmiId`]
    target_type: &'static str,
    /// Initialization input
    input: String,
    /// Error detail
    error_detail: ErrorDetail,
}

impl View for Error {
    type V = GeneralFailure;

    closed spec fn view(&self) -> GeneralFailure {
        GeneralFailure {
            target_type: self.target_type@,
            input: self.input@,
            reason: self.error_detail@,
        }
    }
}

impl Error {
    /// The text of an error, in the words of this module.
    pub open spec fn message(failure: GeneralFailure) -> Seq<char> {
        "initialization of `"@ + failure.target_type + "` by \""@ + failure.input
            + "\" errored with: "@ + ErrorDetail::message(failure.reason)
    }

    /// The error that says why `input` is no ID of the type `target_type`.
    pub fn new(target_type: &'static str, input: &str, error_detail: ErrorDetail) -> (r: Self)
        ensures
            r@ == (GeneralFailure {
                target_type: target_type@,
                input: input@,
                reason: error_detail@,
            }),
    {
        Self { target_type, input: input.to_owned(), error_detail }
    }

    /// The name of the type that was asked for.
    pub fn target_type(&self) -> (r: &'static str)
        ensures
            r@ == self@.target_type,
    {
        self.target_type
    }

    /// The input, as it was given.
    pub fn input(&self) -> (r: &str)
        ensures
            r@ == self@.input,
    {
        self.input.as_str()
    }

    /// Why the input is no ID of that type.
    pub fn error_detail(&self) -> (r: &ErrorDetail)
        ensures
            r@ == self@.reason,
    {
        &self.error_detail
    }

    /// The text of the error.
    pub fn to_string(&self) -> (r: String)
        ensures
            r@ == Self::message(self@),
    {
        let mut out = "initialization of `".to_owned();
        out.append(self.target_type);
        out.append("` by \"");
        out.append(self.input.as_str());
        out.append("\" errored with: ");
        let detail = self.error_detail.to_string();
        out.append(detail.as_str());
        out
    }
}

/// The alphanumeric part of an AWS resource id
#[derive(Copy, Clone, Debug, Eq, Ord, Hash)]
pub enum AwsResourceId {
    /// The short form
    C8([u8; 8]),
    /// The long form
    C17([u8; 17]),
}

impl AwsResourceId {
    /// The bytes of the alphanumeric part, 8 or 17 of them.
    pub open spec fn bytes(self) -> Seq<u8> {
        match self {
            AwsResourceId::C8(x) => x@,
            AwsResourceId::C17(x) => x@,
        }
    }

    /// The bytes of the alphanumeric part.
    pub fn as_slice(&self) -> (r: &[u8])
        ensures
            r@ == self.bytes(),
            r@.len() == 8 || r@.len() == 17,
    {
        match self {
            AwsResourceId::C8(x) => x.as_slice(),
            AwsResourceId::C17(x) => x.as_slice(),
        }
    }

    /// The same bytes, as a value of this module.
    fn from_unique_part(unique: UniquePart) -> (r: Self)
        ensures
            r.bytes() == unique.bytes(),
    {
        match unique {
            UniquePart::C8(x) => AwsResourceId::C8(x),
            UniquePart::C17(x) => AwsResourceId::C17(x),
        }
    }
}

/// The name of an ID type, without a path.
pub fn short_type_name<T: ResourceKind>() -> (r: &'static str)
    ensures
        r@ == T::spec_name(),
{
    T::name()
}

/// What parsing `raw` as an ID of the type `T` gives: the bytes of the
/// alphanumeric part, or the error that names the type, holds `raw` and says
/// which rule it breaks.
pub open spec fn parse_spec<T: ResourceKind>(raw: Seq<char>) -> Result<Seq<u8>, GeneralFailure> {
    match validate(T::spec_prefix(), raw) {
        Ok(unique) => Ok(unique),
        Err(reason) => Err(GeneralFailure { target_type: T::spec_name(), input: raw, reason }),
    }
}

/// The text that describes an ID to a developer: the name of its type, and in
/// brackets its canonical text in quotes.
pub open spec fn debug_text<T: ResourceKind>(unique: Seq<u8>) -> Seq<char> {
    T::spec_name() + "(\""@ + render(T::spec_prefix(), unique) + "\")"@
}

/// Checks `s` against the rule, with the prefix of the type `T`.
fn parse<T: ResourceKind>(s: &str) -> (r: Result<AwsResourceId, Error>)
    ensures
        match r {
            Ok(unique) => parse_spec::<T>(s@) == Ok::<Seq<u8>, GeneralFailure>(unique.bytes())
                && is_unique_part(unique.bytes()),
            Err(e) => parse_spec::<T>(s@) == Err::<Seq<u8>, GeneralFailure>(e@),
        },
{
    match parse_unique_part(s, T::prefix()) {
        Ok(unique) => {
            proof {
                lemma_validate_ok(T::spec_prefix(), s@);
            }
            Ok(AwsResourceId::from_unique_part(unique))
        },
        Err(detail) => Err(
            Error::new(short_type_name::<T>(), s, ErrorDetail::from_general(detail)),
        ),
    }
}

/// The canonical text of an ID of the type `T`.
fn format<T: ResourceKind>(unique: &AwsResourceId) -> (r: String)
    requires
        is_unique_part(unique.bytes()),
    ensures
        r@ == render(T::spec_prefix(), unique.bytes()),
{
    let mut out = T::prefix().to_owned();
    out.append(ascii_str(unique.as_slice()));
    out
}

/// The text that describes an ID of the type `T` to a developer.
fn format_debug<T: ResourceKind>(unique: &AwsResourceId) -> (r: String)
    requires
        is_unique_part(unique.bytes()),
    ensures
        r@ == debug_text::<T>(unique.bytes()),
{
    let mut out = short_type_name::<T>().to_owned();
    out.append("(\"");
    let text = format::<T>(unique);
    out.append(text.as_str());
    out.append("\")");
    out
}

/// AWS AMI (Amazon Machine Image) ID
#[derive(Copy, Clone, Debug, Eq, Ord, Hash)]
pub struct AwsAmiId(AwsResourceId);

impl ResourceKind for AwsAmiId {
    open spec fn spec_prefix() -> Seq<char> {
        "ami-"@
    }

    open spec fn spec_name() -> Seq<char> {
        "AwsAmiId"@
    }

    fn prefix() -> (r: &'static str) {
        "ami-"
    }

    fn name() -> (r: &'static str) {
        "AwsAmiId"
    }

    proof fn lemma_prefix_ends() {
        reveal_strlit("ami-");
    }
}

impl View for AwsAmiId {
    type V = Seq<u8>;

    /// The bytes of the alphanumeric part.
    closed spec fn view(&self) -> Seq<u8> {
        self.0.bytes()
    }
}

impl AwsAmiId {
    #[verifier::type_invariant]
    spec fn well_formed(self) -> bool {
        is_unique_part(self.0.bytes())
    }

    /// The canonical text of the ID.
    pub open spec fn text(self) -> Seq<char> {
        render(Self::spec_prefix(), self@)
    }

    /// The bytes of the alphanumeric part.
    pub fn unique_part(&self) -> (r: &[u8])
        ensures
            r@ == self@,
            is_unique_part(self@),
    {
        proof {
            use_type_invariant(self);
        }
        self.0.as_slice()
    }

    /// The canonical text of the ID: `ami-`, then the alphanumeric part.
    pub fn to_string(&self) -> (r: String)
        ensures
            r@ == self.text(),
    {
        proof {
            use_type_invariant(self);
        }
        format::<Self>(&self.0)
    }

    /// The text that describes the ID to a developer.
    pub fn debug_string(&self) -> (r: String)
        ensures
            r@ == debug_text::<Self>(self@),
    {
        proof {
            use_type_invariant(self);
        }
        format_debug::<Self>(&self.0)
    }
}

impl TryFrom<&str> for AwsAmiId {
    type Error = Error;

    /// Checks the string against the rule, with the prefix `ami-`.
    fn try_from(s: &str) -> (r: Result<Self, Error>)
        ensures
            match r {
                Ok(id) => parse_spec::<Self>(s@) == Ok::<Seq<u8>, GeneralFailure>(id@),
                Err(e) => parse_spec::<Self>(s@) == Err::<Seq<u8>, GeneralFailure>(e@),
            },
    {
        match parse::<Self>(s) {
            Ok(unique) => Ok(AwsAmiId(unique)),
            Err(e) => Err(e),
        }
    }
}

/// The result is stated by the `ensures` of `try_from`: an error holds a
/// `String`, which no spec function can build.
impl vstd::std_specs::convert::TryFromSpecImpl<&str> for AwsAmiId {
    open spec fn obeys_try_from_spec() -> bool {
        false
    }

    open spec fn try_from_spec(s: &str) -> Result<Self, Error> {
        arbitrary()
    }
}

impl TryFrom<String> for AwsAmiId {
    type Error = Error;

    fn try_from(s: String) -> (r: Result<Self, Error>)
        ensures
            match r {
                Ok(id) => parse_spec::<Self>(s@) == Ok::<Seq<u8>, GeneralFailure>(id@),
                Err(e) => parse_spec::<Self>(s@) == Err::<Seq<u8>, GeneralFailure>(e@),
            },
    {
        Self::try_from(s.as_str())
    }
}

/// The result is stated by the `ensures` of `try_from`.
impl vstd::std_specs::convert::TryFromSpecImpl<String> for AwsAmiId {
    open spec fn obeys_try_from_spec() -> bool {
        false
    }

    open spec fn try_from_spec(s: String) -> Result<Self, Error> {
        arbitrary()
    }
}

impl From<AwsAmiId> for String {
    fn from(value: AwsAmiId) -> (r: String)
        ensures
            r@ == value.text(),
    {
        value.to_string()
    }
}

/// The result is stated by the `ensures` of `from`.
impl vstd::std_specs::convert::FromSpecImpl<AwsAmiId> for String {
    open spec fn obeys_from_spec() -> bool {
        false
    }

    open spec fn from_spec(value: AwsAmiId) -> String {
        arbitrary()
    }
}

/// AWS Snapshot ID
#[derive(Copy, Clone, Debug, Eq, Ord, Hash)]
pub struct AwsSnapshotId(AwsResourceId);

impl ResourceKind for AwsSnapshotId {
    open spec fn spec_prefix() -> Seq<char> {
        "snap-"@
    }

    open spec fn spec_name() -> Seq<char> {
        "AwsSnapshotId"@
    }

    fn prefix() -> (r: &'static str) {
        "snap-"
    }

    fn name() -> (r: &'static str) {
        "AwsSnapshotId"
    }

    proof fn lemma_prefix_ends() {
        reveal_strlit("snap-");
    }
}

impl View for AwsSnapshotId {
    type V = Seq<u8>;

    /// The bytes of the alphanumeric part.
    closed spec fn view(&self) -> Seq<u8> {
        self.0.bytes()
    }
}

impl AwsSnapshotId {
    #[verifier::type_invariant]
    spec fn well_formed(self) -> bool {
        is_unique_part(self.0.bytes())
    }

    /// The canonical text of the ID.
    pub open spec fn text(self) -> Seq<char> {
        render(Self::spec_prefix(), self@)
    }

    /// The bytes of the alphanumeric part.
    pub fn unique_part(&self) -> (r: &[u8])
        ensures
            r@ == self@,
            is_unique_part(self@),
    {
        proof {
            use_type_invariant(self);
        }
        self.0.as_slice()
    }

    /// The canonical text of the ID: `snap-`, then the alphanumeric part.
    pub fn to_string(&self) -> (r: String)
        ensures
            r@ == self.text(),
    {
        proof {
            use_type_invariant(self);
        }
        format::<Self>(&self.0)
    }

    /// The text that describes the ID to a developer.
    pub fn debug_string(&self) -> (r: String)
        ensures
            r@ == debug_text::<Self>(self@),
    {
        proof {
            use_type_invariant(self);
        }
        format_debug::<Self>(&self.0)
    }
}

impl TryFrom<&str> for AwsSnapshotId {
    type Error = Error;

    /// Checks the string against the rule, with the prefix `snap-`.
    fn try_from(s: &str) -> (r: Result<Self, Error>)
        ensures
            match r {
                Ok(id) => parse_spec::<Self>(s@) == Ok::<Seq<u8>, GeneralFailure>(id@),
                Err(e) => parse_spec::<Self>(s@) == Err::<Seq<u8>, GeneralFailure>(e@),
            },
    {
        match parse::<Self>(s) {
            Ok(unique) => Ok(AwsSnapshotId(unique)),
            Err(e) => Err(e),
        }
    }
}

/// The result is stated by the `ensures` of `try_from`: an error holds a
/// `String`, which no spec function can build.
impl vstd::std_specs::convert::TryFromSpecImpl<&str> for AwsSnapshotId {
    open spec fn obeys_try_from_spec() -> bool {
        false
    }

    open spec fn try_from_spec(s: &str) -> Result<Self, Error> {
        arbitrary()
    }
}

impl TryFrom<String> for AwsSnapshotId {
    type Error = Error;

    fn try_from(s: String) -> (r: Result<Self, Error>)
        ensures
            match r {
                Ok(id) => parse_spec::<Self>(s@) == Ok::<Seq<u8>, GeneralFailure>(id@),
                Err(e) => parse_spec::<Self>(s@) == Err::<Seq<u8>, GeneralFailure>(e@),
            },
    {
        Self::try_from(s.as_str())
    }
}

/// The result is stated by the `ensures` of `try_from`.
impl vstd::std_specs::convert::TryFromSpecImpl<String> for AwsSnapshotId {
    open spec fn obeys_try_from_spec() -> bool {
        false
    }

    open spec fn try_from_spec(s: String) -> Result<Self, Error> {
        arbitrary()
    }
}

impl From<AwsSnapshotId> for String {
    fn from(value: AwsSnapshotId) -> (r: String)
        ensures
            r@ == value.text(),
    {
        value.to_string()
    }
}

/// The result is stated by the `ensures` of `from`.
impl vstd::std_specs::convert::FromSpecImpl<AwsSnapshotId> for String {
    open spec fn obeys_from_spec() -> bool {
        false
    }

    open spec fn from_spec(value: AwsSnapshotId) -> String {
        arbitrary()
    }
}

} // verus!
