//! Identifiers of AWS resources and regions, validated when they are made.
//!
//! - [`general`]: the IDs of resources, such as `ami-1234abcd`: a prefix that
//!   names the type of resource, then 8 or 17 ASCII letters and digits. Each
//!   type of resource has an ID type of its own, such as [`AwsAmiId`].
//! - [`region`]: the regions, such as `us-east-1`, as the closed enumeration
//!   [`AwsRegionId`].
//! - [`general_resource`]: the IDs of AMIs and snapshots as two types with an
//!   error type of their own.
//! - [`text`]: what the others need of strings and their bytes.
//!
//! A value of an ID type is made only by parsing its text, so it always holds
//! a valid ID, and its text can always be parsed again to the same value.
use vstd::prelude::*;

pub mod general;
pub mod general_resource;
pub mod region;
pub mod text;

pub use general::{
    AwsAmiId, AwsCloudFormationStackId, AwsCustomerGatewayId, AwsEfsFileSystemId,
    AwsEfsMountTargetId, AwsElasticBeanstalkEnvironmentId, AwsElasticIpId, AwsInstanceId,
    AwsInternetGatewayId, AwsKeyPairId, AwsLoadBalancerId, AwsNatGatewayId, AwsNetworkAclId,
    AwsNetworkInterfaceId, AwsPlacementGroupId, AwsRdsInstanceId, AwsRedshiftClusterId,
    AwsRouteTableId, AwsSecurityGroupId, AwsSnapshotId, AwsSubnetId, AwsTargetGroupId,
    AwsTransitGatewayAttachmentId, AwsTransitGatewayId, AwsVolumeId, AwsVpcId, AwsVpnConnectionId,
    AwsVpnGatewayId, GeneralFailure, GeneralResourceError, GeneralResourceErrorDetail, Reason,
    ResourceId, ResourceKind, UniquePart,
};
pub use region::{AwsRegionId, RegionError};

verus! {

/// AWS resource ID parsing or validating error
#[derive(Debug)]
pub enum Error {
    /// Parsing AWS resource ID in the general format
    General(GeneralResourceError),
    /// Parsing AWS region ID
    Region(RegionError),
}

/// What an [`Error`] says: its model.
pub enum Failure {
    /// An input that is no ID of the resource type asked for.
    General(GeneralFailure),
    /// An input that is no region.
    Region(Seq<char>),
}

impl Failure {
    /// The text of the error, which is that of the error inside.
    pub open spec fn message(self) -> Seq<char> {
        match self {
            Failure::General(e) => e.message(),
            Failure::Region(input) => RegionError::message(input),
        }
    }
}

impl View for Error {
    type V = Failure;

    open spec fn view(&self) -> Failure {
        match self {
            Error::General(e) => Failure::General(e@),
            Error::Region(e) => Failure::Region(e@),
        }
    }
}

impl Error {
    /// The text of the error, which is that of the error inside.
    pub fn to_string(&self) -> (r: String)
        ensures
            r@ == self@.message(),
    {
        match self {
            Error::General(e) => e.to_string(),
            Error::Region(e) => e.to_string(),
        }
    }
}

impl From<GeneralResourceError> for Error {
    fn from(e: GeneralResourceError) -> (r: Error) {
        Error::General(e)
    }
}

impl vstd::std_specs::convert::FromSpecImpl<GeneralResourceError> for Error {
    open spec fn obeys_from_spec() -> bool {
        true
    }

    open spec fn from_spec(e: GeneralResourceError) -> Error {
        Error::General(e)
    }
}

impl From<RegionError> for Error {
    fn from(e: RegionError) -> (r: Error) {
        Error::Region(e)
    }
}

impl vstd::std_specs::convert::FromSpecImpl<RegionError> for Error {
    open spec fn obeys_from_spec() -> bool {
        true
    }

    open spec fn from_spec(e: RegionError) -> Error {
        Error::Region(e)
    }
}

} // verus!
