//! # AWS Region ID
//!
//! The regions form a closed set: each value of [`AwsRegionId`] has one code,
//! such as `us-east-1`, and a string is a region exactly when it is one of
//! these codes, letter for letter.
use core::str::FromStr;
use vstd::prelude::*;
use vstd::string::*;

use crate::text::str_eq;
use crate::{Error, Failure};

verus! {

/// Error encountered when parsing an AWS region
#[derive(Debug)]
pub struct RegionError(String);

impl View for RegionError {
    type V = Seq<char>;

    /// The input that is no region.
    closed spec fn view(&self) -> Seq<char> {
        self.0@
    }
}

impl RegionError {
    /// The text of the error for the given input.
    pub open spec fn message(input: Seq<char>) -> Seq<char> {
        "Unknown region: "@ + input
    }

    /// The error for an input that is no region.
    pub fn new(input: &str) -> (r: Self)
        ensures
            r@ == input@,
    {
        RegionError(input.to_owned())
    }

    /// The input that is no region.
    pub fn input(&self) -> (r: &str)
        ensures
            r@ == self@,
    {
        self.0.as_str()
    }

    /// The text of the error.
    pub fn to_string(&self) -> (r: String)
        ensures
            r@ == Self::message(self@),
    {
        let mut out = "Unknown region: ".to_owned();
        out.append(self.0.as_str());
        out
    }
}

/// AWS Region ID
#[derive(Debug, Copy, Clone, PartialEq, Eq, Structural, PartialOrd, Ord, Hash)]
pub enum AwsRegionId {
    /// Africa (Cape Town)
    AfSouth1,
    /// Asia Pacific (Hong Kong)
    ApEast1,
    /// Asia Pacific (Tokyo)
    ApNortheast1,
    /// Asia Pacific (Seoul)
    ApNortheast2,
    /// Asia Pacific (Osaka)
    ApNortheast3,
    /// Asia Pacific (Mumbai)
    ApSouth1,
    /// Asia Pacific (Hyderabad)
    ApSouth2,
    /// Asia Pacific (Singapore)
    ApSoutheast1,
    /// Asia Pacific (Sydney)
    ApSoutheast2,
    /// Asia Pacific (Jakarta)
    ApSoutheast3,
    /// Asia Pacific (Melbourne)
    ApSoutheast4,
    /// Canada (Central)
    CaCentral1,
    /// Canada West (Calgary)
    CaWest1,
    /// Europe (Frankfurt)
    EuCentral1,
    /// Europe (Zurich)
    EuCentral2,
    /// Europe (Stockholm)
    EuNorth1,
    /// Europe (Milan)
    EuSouth1,
    /// Europe (Spain)
    EuSouth2,
    /// Europe (Ireland)
    EuWest1,
    /// Europe (London)
    EuWest2,
    /// Europe (Paris)
    EuWest3,
    /// Israel (Tel Aviv)
    IlCentral1,
    /// Middle East (UAE)
    MeCentral1,
    /// Middle East (Bahrain)
    MeSouth1,
    /// South America (Sao Paulo)
    SaEast1,
    /// US East (N. Virginia)
    UsEast1,
    /// US East (Ohio)
    UsEast2,
    /// US West (N. California)
    UsWest1,
    /// US West (Oregon)
    UsWest2,
}

impl AwsRegionId {
    /// The code of the region, as a string.
    pub open spec fn code_str(self) -> &'static str {
        match self {
            AwsRegionId::AfSouth1 => "af-south-1",
            AwsRegionId::ApEast1 => "ap-east-1",
            AwsRegionId::ApNortheast1 => "ap-northeast-1",
            AwsRegionId::ApNortheast2 => "ap-northeast-2",
            AwsRegionId::ApNortheast3 => "ap-northeast-3",
            AwsRegionId::ApSouth1 => "ap-south-1",
            AwsRegionId::ApSouth2 => "ap-south-2",
            AwsRegionId::ApSoutheast1 => "ap-southeast-1",
            AwsRegionId::ApSoutheast2 => "ap-southeast-2",
            AwsRegionId::ApSoutheast3 => "ap-southeast-3",
            AwsRegionId::ApSoutheast4 => "ap-southeast-4",
            AwsRegionId::CaCentral1 => "ca-central-1",
            AwsRegionId::CaWest1 => "ca-west-1",
            AwsRegionId::EuCentral1 => "eu-central-1",
            AwsRegionId::EuCentral2 => "eu-central-2",
            AwsRegionId::EuNorth1 => "eu-north-1",
            AwsRegionId::EuSouth1 => "eu-south-1",
            AwsRegionId::EuSouth2 => "eu-south-2",
            AwsRegionId::EuWest1 => "eu-west-1",
            AwsRegionId::EuWest2 => "eu-west-2",
            AwsRegionId::EuWest3 => "eu-west-3",
            AwsRegionId::IlCentral1 => "il-central-1",
            AwsRegionId::MeCentral1 => "me-central-1",
            AwsRegionId::MeSouth1 => "me-south-1",
            AwsRegionId::SaEast1 => "sa-east-1",
            AwsRegionId::UsEast1 => "us-east-1",
            AwsRegionId::UsEast2 => "us-east-2",
            AwsRegionId::UsWest1 => "us-west-1",
            AwsRegionId::UsWest2 => "us-west-2",
        }
    }

    /// The code of the region.
    pub open spec fn code(self) -> Seq<char> {
        self.code_str()@
    }

    /// The region with the given code, if there is one.
    pub open spec fn lookup(raw: Seq<char>) -> Option<AwsRegionId> {
        if exists|v: AwsRegionId| v.code() == raw {
            Some(choose|v: AwsRegionId| v.code() == raw)
        } else {
            None
        }
    }

    /// What parsing `raw` gives: the region with that code, or the error that
    /// holds `raw`.
    pub open spec fn parse_spec(raw: Seq<char>) -> Result<AwsRegionId, Failure> {
        match Self::lookup(raw) {
            Some(v) => Ok(v),
            None => Err(Failure::Region(raw)),
        }
    }

    /// The code of the region.
    pub fn as_str(self) -> (r: &'static str)
        ensures
            r == self.code_str(),
    {
        match self {
            AwsRegionId::AfSouth1 => "af-south-1",
            AwsRegionId::ApEast1 => "ap-east-1",
            AwsRegionId::ApNortheast1 => "ap-northeast-1",
            AwsRegionId::ApNortheast2 => "ap-northeast-2",
            AwsRegionId::ApNortheast3 => "ap-northeast-3",
            AwsRegionId::ApSouth1 => "ap-south-1",
            AwsRegionId::ApSouth2 => "ap-south-2",
            AwsRegionId::ApSoutheast1 => "ap-southeast-1",
            AwsRegionId::ApSoutheast2 => "ap-southeast-2",
            AwsRegionId::ApSoutheast3 => "ap-southeast-3",
            AwsRegionId::ApSoutheast4 => "ap-southeast-4",
            AwsRegionId::CaCentral1 => "ca-central-1",
            AwsRegionId::CaWest1 => "ca-west-1",
            AwsRegionId::EuCentral1 => "eu-central-1",
            AwsRegionId::EuCentral2 => "eu-central-2",
            AwsRegionId::EuNorth1 => "eu-north-1",
            AwsRegionId::EuSouth1 => "eu-south-1",
            AwsRegionId::EuSouth2 => "eu-south-2",
            AwsRegionId::EuWest1 => "eu-west-1",
            AwsRegionId::EuWest2 => "eu-west-2",
            AwsRegionId::EuWest3 => "eu-west-3",
            AwsRegionId::IlCentral1 => "il-central-1",
            AwsRegionId::MeCentral1 => "me-central-1",
            AwsRegionId::MeSouth1 => "me-south-1",
            AwsRegionId::SaEast1 => "sa-east-1",
            AwsRegionId::UsEast1 => "us-east-1",
            AwsRegionId::UsEast2 => "us-east-2",
            AwsRegionId::UsWest1 => "us-west-1",
            AwsRegionId::UsWest2 => "us-west-2",
        }
    }

    /// The code of the region, as an owned string.
    pub fn to_string(&self) -> (r: String)
        ensures
            r@ == self.code(),
    {
        self.as_str().to_owned()
    }
}

/// What tells the codes apart: the length, and the characters at four places.
spec fn key(code: Seq<char>) -> (nat, char, char, char, char) {
    (code.len(), code[0], code[1], code[3], code[code.len() - 1])
}

/// No two regions share a code.
pub proof fn lemma_codes_distinct(a: AwsRegionId, b: AwsRegionId)
    ensures
        a.code() == b.code() ==> a == b,
{
    if a.code() == b.code() {
        assert(key(a.code()) == key(b.code()));
        reveal_strlit("af-south-1");
        reveal_strlit("ap-east-1");
        reveal_strlit("ap-northeast-1");
        reveal_strlit("ap-northeast-2");
        reveal_strlit("ap-northeast-3");
        reveal_strlit("ap-south-1");
        reveal_strlit("ap-south-2");
        reveal_strlit("ap-southeast-1");
        reveal_strlit("ap-southeast-2");
        reveal_strlit("ap-southeast-3");
        reveal_strlit("ap-southeast-4");
        reveal_strlit("ca-central-1");
        reveal_strlit("ca-west-1");
        reveal_strlit("eu-central-1");
        reveal_strlit("eu-central-2");
        reveal_strlit("eu-north-1");
        reveal_strlit("eu-south-1");
        reveal_strlit("eu-south-2");
        reveal_strlit("eu-west-1");
        reveal_strlit("eu-west-2");
        reveal_strlit("eu-west-3");
        reveal_strlit("il-central-1");
        reveal_strlit("me-central-1");
        reveal_strlit("me-south-1");
        reveal_strlit("sa-east-1");
        reveal_strlit("us-east-1");
        reveal_strlit("us-east-2");
        reveal_strlit("us-west-1");
        reveal_strlit("us-west-2");
    }
}

/// The region with a given code is found by that code.
pub proof fn lemma_lookup_code(v: AwsRegionId)
    ensures
        AwsRegionId::lookup(v.code()) == Some(v),
        AwsRegionId::parse_spec(v.code()) == Ok::<AwsRegionId, Failure>(v),
{
    let w = choose|w: AwsRegionId| w.code() == v.code();
    lemma_codes_distinct(w, v);
}

/// A string is accepted exactly when it is the code of a region, and that
/// region is then the result.
pub proof fn lemma_lookup_closed(raw: Seq<char>, v: AwsRegionId)
    ensures
        AwsRegionId::lookup(raw) == Some(v) <==> raw == v.code(),
        AwsRegionId::lookup(raw) is None <==> forall|w: AwsRegionId| w.code() != raw,
{
    if raw == v.code() {
        lemma_lookup_code(v);
    }
}

impl TryFrom<&str> for AwsRegionId {
    type Error = Error;

    /// Looks the string up among the codes of the regions.
    fn try_from(s: &str) -> (r: Result<Self, Error>)
        ensures
            match r {
                Ok(v) => AwsRegionId::parse_spec(s@) == Ok::<AwsRegionId, Failure>(v),
                Err(e) => AwsRegionId::parse_spec(s@) == Err::<AwsRegionId, Failure>(e@),
            },
    {
        let found = if str_eq(s, "af-south-1") {
            Some(AwsRegionId::AfSouth1)
        } else if str_eq(s, "ap-east-1") {
            Some(AwsRegionId::ApEast1)
        } else if str_eq(s, "ap-northeast-1") {
            Some(AwsRegionId::ApNortheast1)
        } else if str_eq(s, "ap-northeast-2") {
            Some(AwsRegionId::ApNortheast2)
        } else if str_eq(s, "ap-northeast-3") {
            Some(AwsRegionId::ApNortheast3)
        } else if str_eq(s, "ap-south-1") {
            Some(AwsRegionId::ApSouth1)
        } else if str_eq(s, "ap-south-2") {
            Some(AwsRegionId::ApSouth2)
        } else if str_eq(s, "ap-southeast-1") {
            Some(AwsRegionId::ApSoutheast1)
        } else if str_eq(s, "ap-southeast-2") {
            Some(AwsRegionId::ApSoutheast2)
        } else if str_eq(s, "ap-southeast-3") {
            Some(AwsRegionId::ApSoutheast3)
        } else if str_eq(s, "ap-southeast-4") {
            Some(AwsRegionId::ApSoutheast4)
        } else if str_eq(s, "ca-central-1") {
            Some(AwsRegionId::CaCentral1)
        } else if str_eq(s, "ca-west-1") {
            Some(AwsRegionId::CaWest1)
        } else if str_eq(s, "eu-central-1") {
            Some(AwsRegionId::EuCentral1)
        } else if str_eq(s, "eu-central-2") {
            Some(AwsRegionId::EuCentral2)
        } else if str_eq(s, "eu-north-1") {
            Some(AwsRegionId::EuNorth1)
        } else if str_eq(s, "eu-south-1") {
            Some(AwsRegionId::EuSouth1)
        } else if str_eq(s, "eu-south-2") {
            Some(AwsRegionId::EuSouth2)
        } else if str_eq(s, "eu-west-1") {
            Some(AwsRegionId::EuWest1)
        } else if str_eq(s, "eu-west-2") {
            Some(AwsRegionId::EuWest2)
        } else if str_eq(s, "eu-west-3") {
            Some(AwsRegionId::EuWest3)
        } else if str_eq(s, "il-central-1") {
            Some(AwsRegionId::IlCentral1)
        } else if str_eq(s, "me-central-1") {
            Some(AwsRegionId::MeCentral1)
        } else if str_eq(s, "me-south-1") {
            Some(AwsRegionId::MeSouth1)
        } else if str_eq(s, "sa-east-1") {
            Some(AwsRegionId::SaEast1)
        } else if str_eq(s, "us-east-1") {
            Some(AwsRegionId::UsEast1)
        } else if str_eq(s, "us-east-2") {
            Some(AwsRegionId::UsEast2)
        } else if str_eq(s, "us-west-1") {
            Some(AwsRegionId::UsWest1)
        } else if str_eq(s, "us-west-2") {
            Some(AwsRegionId::UsWest2)
        } else {
            None
        };
        match found {
            Some(v) => {
                proof {
                    lemma_lookup_code(v);
                }
                Ok(v)
            },
            None => {
                assert forall|w: AwsRegionId| w.code() != s@ by {}
                Err(Error::Region(RegionError::new(s)))
            },
        }
    }
}

/// What `try_from` returns is stated by its `ensures`: an error holds a
/// `String`, which no spec function can build.
impl vstd::std_specs::convert::TryFromSpecImpl<&str> for AwsRegionId {
    open spec fn obeys_try_from_spec() -> bool {
        false
    }

    open spec fn try_from_spec(v: &str) -> Result<Self, Error> {
        arbitrary()
    }
}

impl TryFrom<String> for AwsRegionId {
    type Error = Error;

    /// Looks the string up as `try_from` does for a `&str`.
    fn try_from(s: String) -> (r: Result<Self, Error>)
        ensures
            match r {
                Ok(v) => AwsRegionId::parse_spec(s@) == Ok::<AwsRegionId, Failure>(v),
                Err(e) => AwsRegionId::parse_spec(s@) == Err::<AwsRegionId, Failure>(e@),
            },
    {
        Self::try_from(s.as_str())
    }
}

/// What `try_from` returns is stated by its `ensures`: an error holds a
/// `String`, which no spec function can build.
impl vstd::std_specs::convert::TryFromSpecImpl<String> for AwsRegionId {
    open spec fn obeys_try_from_spec() -> bool {
        false
    }

    open spec fn try_from_spec(v: String) -> Result<Self, Error> {
        arbitrary()
    }
}

impl TryFrom<&String> for AwsRegionId {
    type Error = Error;

    /// Looks the string up as `try_from` does for a `&str`.
    fn try_from(s: &String) -> (r: Result<Self, Error>)
        ensures
            match r {
                Ok(v) => AwsRegionId::parse_spec(s@) == Ok::<AwsRegionId, Failure>(v),
                Err(e) => AwsRegionId::parse_spec(s@) == Err::<AwsRegionId, Failure>(e@),
            },
    {
        Self::try_from(s.as_str())
    }
}

/// What `try_from` returns is stated by its `ensures`: an error holds a
/// `String`, which no spec function can build.
impl vstd::std_specs::convert::TryFromSpecImpl<&String> for AwsRegionId {
    open spec fn obeys_try_from_spec() -> bool {
        false
    }

    open spec fn try_from_spec(v: &String) -> Result<Self, Error> {
        arbitrary()
    }
}

impl FromStr for AwsRegionId {
    type Err = Error;

    /// Looks the string up as `try_from` does.
    fn from_str(s: &str) -> (r: Result<Self, Error>)
        ensures
            match r {
                Ok(v) => AwsRegionId::parse_spec(s@) == Ok::<AwsRegionId, Failure>(v),
                Err(e) => AwsRegionId::parse_spec(s@) == Err::<AwsRegionId, Failure>(e@),
            },
    {
        Self::try_from(s)
    }
}

impl From<AwsRegionId> for &'static str {
    /// The code of the region.
    fn from(region: AwsRegionId) -> (r: &'static str) {
        region.as_str()
    }
}

impl vstd::std_specs::convert::FromSpecImpl<AwsRegionId> for &'static str {
    open spec fn obeys_from_spec() -> bool {
        true
    }

    open spec fn from_spec(region: AwsRegionId) -> &'static str {
        region.code_str()
    }
}

impl AsRef<str> for AwsRegionId {
    /// The code of the region.
    fn as_ref(&self) -> (r: &str)
        ensures
            r@ == self.code(),
    {
        self.as_str()
    }
}

impl From<AwsRegionId> for String {
    /// The code of the region, as an owned string.
    fn from(value: AwsRegionId) -> (r: String)
        ensures
            r@ == value.code(),
    {
        value.to_string()
    }
}

/// What `from` returns is stated by its `ensures`: no spec function can build
/// a `String`.
impl vstd::std_specs::convert::FromSpecImpl<AwsRegionId> for String {
    open spec fn obeys_from_spec() -> bool {
        false
    }

    open spec fn from_spec(value: AwsRegionId) -> String {
        arbitrary()
    }
}

} // verus!
