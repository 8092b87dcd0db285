//! The resource types whose IDs follow the general format, each with the
//! prefix of its IDs and the type of its IDs.
use vstd::prelude::*;

use super::{lemma_one_prefix, validate, ResourceId, ResourceKind};

verus! {

/// AWS Network ACL (Access Control List)
#[derive(Copy, Clone, Debug, PartialEq, Eq, PartialOrd, Ord, Hash)]
pub struct NetworkAclKind;

impl ResourceKind for NetworkAclKind {
    open spec fn spec_prefix() -> Seq<char> {
        "acl-"@
    }

    open spec fn spec_name() -> Seq<char> {
        "AwsNetworkAclId"@
    }

    fn prefix() -> (r: &'static str) {
        "acl-"
    }

    fn name() -> (r: &'static str) {
        "AwsNetworkAclId"
    }

    proof fn lemma_prefix_ends() {
        reveal_strlit("acl-");
    }
}

/// AWS Network ACL (Access Control List) ID
pub type AwsNetworkAclId = ResourceId<NetworkAclKind>;

/// AWS AMI (Amazon Machine Image)
#[derive(Copy, Clone, Debug, PartialEq, Eq, PartialOrd, Ord, Hash)]
pub struct AmiKind;

impl ResourceKind for AmiKind {
    open spec fn spec_prefix() -> Seq<char> {
        "ami-"@
    }

    open spec fn spec_name() -> Seq<char> {
        "AwsAmiId"@
    }

    fn prefix() -> (r: &'static str) {
        "ami-"
    }

    fn name() -> (r: &'static str) {
        "AwsAmiId"
    }

    proof fn lemma_prefix_ends() {
        reveal_strlit("ami-");
    }
}

/// AWS AMI (Amazon Machine Image) ID
pub type AwsAmiId = ResourceId<AmiKind>;

/// AWS Customer Gateway
#[derive(Copy, Clone, Debug, PartialEq, Eq, PartialOrd, Ord, Hash)]
pub struct CustomerGatewayKind;

impl ResourceKind for CustomerGatewayKind {
    open spec fn spec_prefix() -> Seq<char> {
        "cgw-"@
    }

    open spec fn spec_name() -> Seq<char> {
        "AwsCustomerGatewayId"@
    }

    fn prefix() -> (r: &'static str) {
        "cgw-"
    }

    fn name() -> (r: &'static str) {
        "AwsCustomerGatewayId"
    }

    proof fn lemma_prefix_ends() {
        reveal_strlit("cgw-");
    }
}

/// AWS Customer Gateway ID
pub type AwsCustomerGatewayId = ResourceId<CustomerGatewayKind>;

/// AWS Elastic IP
#[derive(Copy, Clone, Debug, PartialEq, Eq, PartialOrd, Ord, Hash)]
pub struct ElasticIpKind;

impl ResourceKind for ElasticIpKind {
    open spec fn spec_prefix() -> Seq<char> {
        "eipalloc-"@
    }

    open spec fn spec_name() -> Seq<char> {
        "AwsElasticIpId"@
    }

    fn prefix() -> (r: &'static str) {
        "eipalloc-"
    }

    fn name() -> (r: &'static str) {
        "AwsElasticIpId"
    }

    proof fn lemma_prefix_ends() {
        reveal_strlit("eipalloc-");
    }
}

/// AWS Elastic IP ID
pub type AwsElasticIpId = ResourceId<ElasticIpKind>;

/// AWS EFS (Elastic File System)
#[derive(Copy, Clone, Debug, PartialEq, Eq, PartialOrd, Ord, Hash)]
pub struct EfsFileSystemKind;

impl ResourceKind for EfsFileSystemKind {
    open spec fn spec_prefix() -> Seq<char> {
        "fs-"@
    }

    open spec fn spec_name() -> Seq<char> {
        "AwsEfsFileSystemId"@
    }

    fn prefix() -> (r: &'static str) {
        "fs-"
    }

    fn name() -> (r: &'static str) {
        "AwsEfsFileSystemId"
    }

    proof fn lemma_prefix_ends() {
        reveal_strlit("fs-");
    }
}

/// AWS EFS (Elastic File System) ID
pub type AwsEfsFileSystemId = ResourceId<EfsFileSystemKind>;

/// AWS EFS Mount Target
#[derive(Copy, Clone, Debug, PartialEq, Eq, PartialOrd, Ord, Hash)]
pub struct EfsMountTargetKind;

impl ResourceKind for EfsMountTargetKind {
    open spec fn spec_prefix() -> Seq<char> {
        "fsmt-"@
    }

    open spec fn spec_name() -> Seq<char> {
        "AwsEfsMountTargetId"@
    }

    fn prefix() -> (r: &'static str) {
        "fsmt-"
    }

    fn name() -> (r: &'static str) {
        "AwsEfsMountTargetId"
    }

    proof fn lemma_prefix_ends() {
        reveal_strlit("fsmt-");
    }
}

/// AWS EFS Mount Target ID
pub type AwsEfsMountTargetId = ResourceId<EfsMountTargetKind>;

/// AWS CloudFormation Stack
#[derive(Copy, Clone, Debug, PartialEq, Eq, PartialOrd, Ord, Hash)]
pub struct CloudFormationStackKind;

impl ResourceKind for CloudFormationStackKind {
    open spec fn spec_prefix() -> Seq<char> {
        "stack-"@
    }

    open spec fn spec_name() -> Seq<char> {
        "AwsCloudFormationStackId"@
    }

    fn prefix() -> (r: &'static str) {
        "stack-"
    }

    fn name() -> (r: &'static str) {
        "AwsCloudFormationStackId"
    }

    proof fn lemma_prefix_ends() {
        reveal_strlit("stack-");
    }
}

/// AWS CloudFormation Stack ID
pub type AwsCloudFormationStackId = ResourceId<CloudFormationStackKind>;

/// AWS Elastic Beanstalk Environment
#[derive(Copy, Clone, Debug, PartialEq, Eq, PartialOrd, Ord, Hash)]
pub struct ElasticBeanstalkEnvironmentKind;

impl ResourceKind for ElasticBeanstalkEnvironmentKind {
    open spec fn spec_prefix() -> Seq<char> {
        "e-"@
    }

    open spec fn spec_name() -> Seq<char> {
        "AwsElasticBeanstalkEnvironmentId"@
    }

    fn prefix() -> (r: &'static str) {
        "e-"
    }

    fn name() -> (r: &'static str) {
        "AwsElasticBeanstalkEnvironmentId"
    }

    proof fn lemma_prefix_ends() {
        reveal_strlit("e-");
    }
}

/// AWS Elastic Beanstalk Environment ID
pub type AwsElasticBeanstalkEnvironmentId = ResourceId<ElasticBeanstalkEnvironmentKind>;

/// AWS EC2 Instance
#[derive(Copy, Clone, Debug, PartialEq, Eq, PartialOrd, Ord, Hash)]
pub struct InstanceKind;

impl ResourceKind for InstanceKind {
    open spec fn spec_prefix() -> Seq<char> {
        "i-"@
    }

    open spec fn spec_name() -> Seq<char> {
        "AwsInstanceId"@
    }

    fn prefix() -> (r: &'static str) {
        "i-"
    }

    fn name() -> (r: &'static str) {
        "AwsInstanceId"
    }

    proof fn lemma_prefix_ends() {
        reveal_strlit("i-");
    }
}

/// AWS EC2 Instance ID
pub type AwsInstanceId = ResourceId<InstanceKind>;

/// AWS Internet Gateway
#[derive(Copy, Clone, Debug, PartialEq, Eq, PartialOrd, Ord, Hash)]
pub struct InternetGatewayKind;

impl ResourceKind for InternetGatewayKind {
    open spec fn spec_prefix() -> Seq<char> {
        "igw-"@
    }

    open spec fn spec_name() -> Seq<char> {
        "AwsInternetGatewayId"@
    }

    fn prefix() -> (r: &'static str) {
        "igw-"
    }

    fn name() -> (r: &'static str) {
        "AwsInternetGatewayId"
    }

    proof fn lemma_prefix_ends() {
        reveal_strlit("igw-");
    }
}

/// AWS Internet Gateway ID
pub type AwsInternetGatewayId = ResourceId<InternetGatewayKind>;

/// AWS Key Pair
#[derive(Copy, Clone, Debug, PartialEq, Eq, PartialOrd, Ord, Hash)]
pub struct KeyPairKind;

impl ResourceKind for KeyPairKind {
    open spec fn spec_prefix() -> Seq<char> {
        "key-"@
    }

    open spec fn spec_name() -> Seq<char> {
        "AwsKeyPairId"@
    }

    fn prefix() -> (r: &'static str) {
        "key-"
    }

    fn name() -> (r: &'static str) {
        "AwsKeyPairId"
    }

    proof fn lemma_prefix_ends() {
        reveal_strlit("key-");
    }
}

/// AWS Key Pair ID
pub type AwsKeyPairId = ResourceId<KeyPairKind>;

/// AWS Elastic Load Balancer
#[derive(Copy, Clone, Debug, PartialEq, Eq, PartialOrd, Ord, Hash)]
pub struct LoadBalancerKind;

impl ResourceKind for LoadBalancerKind {
    open spec fn spec_prefix() -> Seq<char> {
        "elbv2-"@
    }

    open spec fn spec_name() -> Seq<char> {
        "AwsLoadBalancerId"@
    }

    fn prefix() -> (r: &'static str) {
        "elbv2-"
    }

    fn name() -> (r: &'static str) {
        "AwsLoadBalancerId"
    }

    proof fn lemma_prefix_ends() {
        reveal_strlit("elbv2-");
    }
}

/// AWS Elastic Load Balancer ID
pub type AwsLoadBalancerId = ResourceId<LoadBalancerKind>;

/// AWS NAT Gateway
#[derive(Copy, Clone, Debug, PartialEq, Eq, PartialOrd, Ord, Hash)]
pub struct NatGatewayKind;

impl ResourceKind for NatGatewayKind {
    open spec fn spec_prefix() -> Seq<char> {
        "nat-"@
    }

    open spec fn spec_name() -> Seq<char> {
        "AwsNatGatewayId"@
    }

    fn prefix() -> (r: &'static str) {
        "nat-"
    }

    fn name() -> (r: &'static str) {
        "AwsNatGatewayId"
    }

    proof fn lemma_prefix_ends() {
        reveal_strlit("nat-");
    }
}

/// AWS NAT Gateway ID
pub type AwsNatGatewayId = ResourceId<NatGatewayKind>;

/// AWS Network Interface
#[derive(Copy, Clone, Debug, PartialEq, Eq, PartialOrd, Ord, Hash)]
pub struct NetworkInterfaceKind;

impl ResourceKind for NetworkInterfaceKind {
    open spec fn spec_prefix() -> Seq<char> {
        "eni-"@
    }

    open spec fn spec_name() -> Seq<char> {
        "AwsNetworkInterfaceId"@
    }

    fn prefix() -> (r: &'static str) {
        "eni-"
    }

    fn name() -> (r: &'static str) {
        "AwsNetworkInterfaceId"
    }

    proof fn lemma_prefix_ends() {
        reveal_strlit("eni-");
    }
}

/// AWS Network Interface ID
pub type AwsNetworkInterfaceId = ResourceId<NetworkInterfaceKind>;

/// AWS Placement Group
#[derive(Copy, Clone, Debug, PartialEq, Eq, PartialOrd, Ord, Hash)]
pub struct PlacementGroupKind;

impl ResourceKind for PlacementGroupKind {
    open spec fn spec_prefix() -> Seq<char> {
        "pg-"@
    }

    open spec fn spec_name() -> Seq<char> {
        "AwsPlacementGroupId"@
    }

    fn prefix() -> (r: &'static str) {
        "pg-"
    }

    fn name() -> (r: &'static str) {
        "AwsPlacementGroupId"
    }

    proof fn lemma_prefix_ends() {
        reveal_strlit("pg-");
    }
}

/// AWS Placement Group ID
pub type AwsPlacementGroupId = ResourceId<PlacementGroupKind>;

/// AWS RDS Instance
#[derive(Copy, Clone, Debug, PartialEq, Eq, PartialOrd, Ord, Hash)]
pub struct RdsInstanceKind;

impl ResourceKind for RdsInstanceKind {
    open spec fn spec_prefix() -> Seq<char> {
        "db-"@
    }

    open spec fn spec_name() -> Seq<char> {
        "AwsRdsInstanceId"@
    }

    fn prefix() -> (r: &'static str) {
        "db-"
    }

    fn name() -> (r: &'static str) {
        "AwsRdsInstanceId"
    }

    proof fn lemma_prefix_ends() {
        reveal_strlit("db-");
    }
}

/// AWS RDS Instance ID
pub type AwsRdsInstanceId = ResourceId<RdsInstanceKind>;

/// AWS Redshift Cluster
#[derive(Copy, Clone, Debug, PartialEq, Eq, PartialOrd, Ord, Hash)]
pub struct RedshiftClusterKind;

impl ResourceKind for RedshiftClusterKind {
    open spec fn spec_prefix() -> Seq<char> {
        "redshift-"@
    }

    open spec fn spec_name() -> Seq<char> {
        "AwsRedshiftClusterId"@
    }

    fn prefix() -> (r: &'static str) {
        "redshift-"
    }

    fn name() -> (r: &'static str) {
        "AwsRedshiftClusterId"
    }

    proof fn lemma_prefix_ends() {
        reveal_strlit("redshift-");
    }
}

/// AWS Redshift Cluster ID
pub type AwsRedshiftClusterId = ResourceId<RedshiftClusterKind>;

/// AWS Route Table
#[derive(Copy, Clone, Debug, PartialEq, Eq, PartialOrd, Ord, Hash)]
pub struct RouteTableKind;

impl ResourceKind for RouteTableKind {
    open spec fn spec_prefix() -> Seq<char> {
        "rtb-"@
    }

    open spec fn spec_name() -> Seq<char> {
        "AwsRouteTableId"@
    }

    fn prefix() -> (r: &'static str) {
        "rtb-"
    }

    fn name() -> (r: &'static str) {
        "AwsRouteTableId"
    }

    proof fn lemma_prefix_ends() {
        reveal_strlit("rtb-");
    }
}

/// AWS Route Table ID
pub type AwsRouteTableId = ResourceId<RouteTableKind>;

/// AWS Security Group
#[derive(Copy, Clone, Debug, PartialEq, Eq, PartialOrd, Ord, Hash)]
pub struct SecurityGroupKind;

impl ResourceKind for SecurityGroupKind {
    open spec fn spec_prefix() -> Seq<char> {
        "sg-"@
    }

    open spec fn spec_name() -> Seq<char> {
        "AwsSecurityGroupId"@
    }

    fn prefix() -> (r: &'static str) {
        "sg-"
    }

    fn name() -> (r: &'static str) {
        "AwsSecurityGroupId"
    }

    proof fn lemma_prefix_ends() {
        reveal_strlit("sg-");
    }
}

/// AWS Security Group ID
pub type AwsSecurityGroupId = ResourceId<SecurityGroupKind>;

/// AWS EBS Snapshot
#[derive(Copy, Clone, Debug, PartialEq, Eq, PartialOrd, Ord, Hash)]
pub struct SnapshotKind;

impl ResourceKind for SnapshotKind {
    open spec fn spec_prefix() -> Seq<char> {
        "snap-"@
    }

    open spec fn spec_name() -> Seq<char> {
        "AwsSnapshotId"@
    }

    fn prefix() -> (r: &'static str) {
        "snap-"
    }

    fn name() -> (r: &'static str) {
        "AwsSnapshotId"
    }

    proof fn lemma_prefix_ends() {
        reveal_strlit("snap-");
    }
}

/// AWS EBS Snapshot ID
pub type AwsSnapshotId = ResourceId<SnapshotKind>;

/// AWS VPC Subnet
#[derive(Copy, Clone, Debug, PartialEq, Eq, PartialOrd, Ord, Hash)]
pub struct SubnetKind;

impl ResourceKind for SubnetKind {
    open spec fn spec_prefix() -> Seq<char> {
        "subnet-"@
    }

    open spec fn spec_name() -> Seq<char> {
        "AwsSubnetId"@
    }

    fn prefix() -> (r: &'static str) {
        "subnet-"
    }

    fn name() -> (r: &'static str) {
        "AwsSubnetId"
    }

    proof fn lemma_prefix_ends() {
        reveal_strlit("subnet-");
    }
}

/// AWS VPC Subnet ID
pub type AwsSubnetId = ResourceId<SubnetKind>;

/// AWS Target Group
#[derive(Copy, Clone, Debug, PartialEq, Eq, PartialOrd, Ord, Hash)]
pub struct TargetGroupKind;

impl ResourceKind for TargetGroupKind {
    open spec fn spec_prefix() -> Seq<char> {
        "tg-"@
    }

    open spec fn spec_name() -> Seq<char> {
        "AwsTargetGroupId"@
    }

    fn prefix() -> (r: &'static str) {
        "tg-"
    }

    fn name() -> (r: &'static str) {
        "AwsTargetGroupId"
    }

    proof fn lemma_prefix_ends() {
        reveal_strlit("tg-");
    }
}

/// AWS Target Group ID
pub type AwsTargetGroupId = ResourceId<TargetGroupKind>;

/// AWS Transit Gateway Attachment
#[derive(Copy, Clone, Debug, PartialEq, Eq, PartialOrd, Ord, Hash)]
pub struct TransitGatewayAttachmentKind;

impl ResourceKind for TransitGatewayAttachmentKind {
    open spec fn spec_prefix() -> Seq<char> {
        "tgw-attach-"@
    }

    open spec fn spec_name() -> Seq<char> {
        "AwsTransitGatewayAttachmentId"@
    }

    fn prefix() -> (r: &'static str) {
        "tgw-attach-"
    }

    fn name() -> (r: &'static str) {
        "AwsTransitGatewayAttachmentId"
    }

    proof fn lemma_prefix_ends() {
        reveal_strlit("tgw-attach-");
    }
}

/// AWS Transit Gateway Attachment ID
pub type AwsTransitGatewayAttachmentId = ResourceId<TransitGatewayAttachmentKind>;

/// AWS Transit Gateway
#[derive(Copy, Clone, Debug, PartialEq, Eq, PartialOrd, Ord, Hash)]
pub struct TransitGatewayKind;

impl ResourceKind for TransitGatewayKind {
    open spec fn spec_prefix() -> Seq<char> {
        "tgw-"@
    }

    open spec fn spec_name() -> Seq<char> {
        "AwsTransitGatewayId"@
    }

    fn prefix() -> (r: &'static str) {
        "tgw-"
    }

    fn name() -> (r: &'static str) {
        "AwsTransitGatewayId"
    }

    proof fn lemma_prefix_ends() {
        reveal_strlit("tgw-");
    }
}

/// AWS Transit Gateway ID
pub type AwsTransitGatewayId = ResourceId<TransitGatewayKind>;

/// AWS EBS Volume
#[derive(Copy, Clone, Debug, PartialEq, Eq, PartialOrd, Ord, Hash)]
pub struct VolumeKind;

impl ResourceKind for VolumeKind {
    open spec fn spec_prefix() -> Seq<char> {
        "vol-"@
    }

    open spec fn spec_name() -> Seq<char> {
        "AwsVolumeId"@
    }

    fn prefix() -> (r: &'static str) {
        "vol-"
    }

    fn name() -> (r: &'static str) {
        "AwsVolumeId"
    }

    proof fn lemma_prefix_ends() {
        reveal_strlit("vol-");
    }
}

/// AWS EBS Volume ID
pub type AwsVolumeId = ResourceId<VolumeKind>;

/// AWS VPC (Virtual Private Cloud)
#[derive(Copy, Clone, Debug, PartialEq, Eq, PartialOrd, Ord, Hash)]
pub struct VpcKind;

impl ResourceKind for VpcKind {
    open spec fn spec_prefix() -> Seq<char> {
        "vpc-"@
    }

    open spec fn spec_name() -> Seq<char> {
        "AwsVpcId"@
    }

    fn prefix() -> (r: &'static str) {
        "vpc-"
    }

    fn name() -> (r: &'static str) {
        "AwsVpcId"
    }

    proof fn lemma_prefix_ends() {
        reveal_strlit("vpc-");
    }
}

/// AWS VPC (Virtual Private Cloud) ID
pub type AwsVpcId = ResourceId<VpcKind>;

/// AWS VPN Connection
#[derive(Copy, Clone, Debug, PartialEq, Eq, PartialOrd, Ord, Hash)]
pub struct VpnConnectionKind;

impl ResourceKind for VpnConnectionKind {
    open spec fn spec_prefix() -> Seq<char> {
        "vpn-"@
    }

    open spec fn spec_name() -> Seq<char> {
        "AwsVpnConnectionId"@
    }

    fn prefix() -> (r: &'static str) {
        "vpn-"
    }

    fn name() -> (r: &'static str) {
        "AwsVpnConnectionId"
    }

    proof fn lemma_prefix_ends() {
        reveal_strlit("vpn-");
    }
}

/// AWS VPN Connection ID
pub type AwsVpnConnectionId = ResourceId<VpnConnectionKind>;

/// AWS VPN Gateway
#[derive(Copy, Clone, Debug, PartialEq, Eq, PartialOrd, Ord, Hash)]
pub struct VpnGatewayKind;

impl ResourceKind for VpnGatewayKind {
    open spec fn spec_prefix() -> Seq<char> {
        "vgw-"@
    }

    open spec fn spec_name() -> Seq<char> {
        "AwsVpnGatewayId"@
    }

    fn prefix() -> (r: &'static str) {
        "vgw-"
    }

    fn name() -> (r: &'static str) {
        "AwsVpnGatewayId"
    }

    proof fn lemma_prefix_ends() {
        reveal_strlit("vgw-");
    }
}

/// AWS VPN Gateway ID
pub type AwsVpnGatewayId = ResourceId<VpnGatewayKind>;

/// The prefixes of the resource types of this module.
pub open spec fn prefixes() -> Seq<Seq<char>> {
    seq![
        NetworkAclKind::spec_prefix(),
        AmiKind::spec_prefix(),
        CustomerGatewayKind::spec_prefix(),
        ElasticIpKind::spec_prefix(),
        EfsFileSystemKind::spec_prefix(),
        EfsMountTargetKind::spec_prefix(),
        CloudFormationStackKind::spec_prefix(),
        ElasticBeanstalkEnvironmentKind::spec_prefix(),
        InstanceKind::spec_prefix(),
        InternetGatewayKind::spec_prefix(),
        KeyPairKind::spec_prefix(),
        LoadBalancerKind::spec_prefix(),
        NatGatewayKind::spec_prefix(),
        NetworkInterfaceKind::spec_prefix(),
        PlacementGroupKind::spec_prefix(),
        RdsInstanceKind::spec_prefix(),
        RedshiftClusterKind::spec_prefix(),
        RouteTableKind::spec_prefix(),
        SecurityGroupKind::spec_prefix(),
        SnapshotKind::spec_prefix(),
        SubnetKind::spec_prefix(),
        TargetGroupKind::spec_prefix(),
        TransitGatewayAttachmentKind::spec_prefix(),
        TransitGatewayKind::spec_prefix(),
        VolumeKind::spec_prefix(),
        VpcKind::spec_prefix(),
        VpnConnectionKind::spec_prefix(),
        VpnGatewayKind::spec_prefix(),
    ]
}

/// What tells the prefixes apart: the length and the first three characters.
spec fn key(prefix: Seq<char>) -> (nat, char, char, char) {
    (prefix.len(), prefix[0], prefix[1], prefix[2])
}

/// No two resource types of this module share a prefix.
pub proof fn lemma_prefixes_distinct()
    ensures
        prefixes().no_duplicates(),
{
    assert forall|i: int, j: int|
        0 <= i < prefixes().len() && 0 <= j < prefixes().len() && i != j implies prefixes()[i]
        != prefixes()[j] by {
        if prefixes()[i] == prefixes()[j] {
            assert(key(prefixes()[i]) == key(prefixes()[j]));
            reveal_strlit("acl-");
            reveal_strlit("ami-");
            reveal_strlit("cgw-");
            reveal_strlit("eipalloc-");
            reveal_strlit("fs-");
            reveal_strlit("fsmt-");
            reveal_strlit("stack-");
            reveal_strlit("e-");
            reveal_strlit("i-");
            reveal_strlit("igw-");
            reveal_strlit("key-");
            reveal_strlit("elbv2-");
            reveal_strlit("nat-");
            reveal_strlit("eni-");
            reveal_strlit("pg-");
            reveal_strlit("db-");
            reveal_strlit("redshift-");
            reveal_strlit("rtb-");
            reveal_strlit("sg-");
            reveal_strlit("snap-");
            reveal_strlit("subnet-");
            reveal_strlit("tg-");
            reveal_strlit("tgw-attach-");
            reveal_strlit("tgw-");
            reveal_strlit("vol-");
            reveal_strlit("vpc-");
            reveal_strlit("vpn-");
            reveal_strlit("vgw-");
        }
    }
}

/// Every prefix of this module ends with a hyphen.
pub proof fn lemma_prefixes_end_with_hyphen()
    ensures
        forall|i: int|
            0 <= i < prefixes().len() ==> (#[trigger] prefixes()[i]).len() > 0
                && prefixes()[i].last() == '-',
{
    reveal_strlit("acl-");
    reveal_strlit("ami-");
    reveal_strlit("cgw-");
    reveal_strlit("eipalloc-");
    reveal_strlit("fs-");
    reveal_strlit("fsmt-");
    reveal_strlit("stack-");
    reveal_strlit("e-");
    reveal_strlit("i-");
    reveal_strlit("igw-");
    reveal_strlit("key-");
    reveal_strlit("elbv2-");
    reveal_strlit("nat-");
    reveal_strlit("eni-");
    reveal_strlit("pg-");
    reveal_strlit("db-");
    reveal_strlit("redshift-");
    reveal_strlit("rtb-");
    reveal_strlit("sg-");
    reveal_strlit("snap-");
    reveal_strlit("subnet-");
    reveal_strlit("tg-");
    reveal_strlit("tgw-attach-");
    reveal_strlit("tgw-");
    reveal_strlit("vol-");
    reveal_strlit("vpc-");
    reveal_strlit("vpn-");
    reveal_strlit("vgw-");
}

/// No input is an ID of two resource types of this module.
pub proof fn lemma_one_type(i: int, j: int, raw: Seq<char>)
    requires
        0 <= i < prefixes().len(),
        0 <= j < prefixes().len(),
        i != j,
    ensures
        !(validate(prefixes()[i], raw) is Ok && validate(prefixes()[j], raw) is Ok),
{
    lemma_prefixes_distinct();
    lemma_prefixes_end_with_hyphen();
    lemma_one_prefix(prefixes()[i], prefixes()[j], raw);
}

} // verus!
