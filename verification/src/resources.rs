//! Identities of measured resources and of their consumers.
//!
//! A resource is the physical or logical entity being measured (the whole
//! machine, one CPU package, ...). A resource consumer is the entity
//! attributed as the user of that resource (the whole machine, a process).
//! Both are closed tagged unions whose variants carry only primitive
//! fields, so that they admit a stable byte encoding (see [`crate::codec`]).

use vstd::prelude::*;

use crate::text::spec_decimal;
use crate::text::u64_to_string;

verus! {

/// The resource a measurement is about.
///
/// Constructed by sources when emitting a measurement, copied by value
/// thereafter, never mutated.
#[derive(Clone, Copy, PartialEq, Eq, Structural, Debug)]
pub enum ResourceId {
    /// The entire local machine.
    LocalMachine,
    /// One CPU package, with its numeric package id.
    CpuPackage { id: u32 },
}

/// The consumer a measurement is attributed to.
#[derive(Clone, Copy, PartialEq, Eq, Structural, Debug)]
pub enum ResourceConsumerId {
    /// The entire local machine: no particular consumer.
    LocalMachine,
    /// A specific process, by pid.
    Process { pid: u32 },
}

impl ResourceId {
    /// The name of this variant, used by exporters as a label value.
    pub fn kind(&self) -> (r: &'static str)
        ensures
            r@ == spec_resource_kind(*self),
    {
        match self {
            ResourceId::LocalMachine => "local_machine",
            ResourceId::CpuPackage { .. } => "cpu_package",
        }
    }
}

impl ResourceId {
    /// The numeric id of this resource, in decimal, where it has one.
    pub fn id_string(&self) -> (r: Option<String>)
        ensures
            match r {
                Some(s) => spec_resource_id_string(*self) == Some(s@),
                None => spec_resource_id_string(*self) is None,
            },
    {
        match self {
            ResourceId::LocalMachine => None,
            ResourceId::CpuPackage { id } => Some(u64_to_string(*id as u64)),
        }
    }
}

/// The decimal id of a resource, where it has one.
pub open spec fn spec_resource_id_string(r: ResourceId) -> Option<Seq<char>> {
    match r {
        ResourceId::LocalMachine => None,
        ResourceId::CpuPackage { id } => Some(spec_decimal(id as nat)),
    }
}

impl ResourceConsumerId {
    /// The numeric id of this consumer, in decimal, where it has one.
    pub fn id_string(&self) -> (r: Option<String>)
        ensures
            match r {
                Some(s) => spec_consumer_id_string(*self) == Some(s@),
                None => spec_consumer_id_string(*self) is None,
            },
    {
        match self {
            ResourceConsumerId::LocalMachine => None,
            ResourceConsumerId::Process { pid } => Some(u64_to_string(*pid as u64)),
        }
    }
}

/// The decimal id of a consumer, where it has one.
pub open spec fn spec_consumer_id_string(c: ResourceConsumerId) -> Option<Seq<char>> {
    match c {
        ResourceConsumerId::LocalMachine => None,
        ResourceConsumerId::Process { pid } => Some(spec_decimal(pid as nat)),
    }
}

/// The variant name of a [`ResourceId`].
pub open spec fn spec_resource_kind(r: ResourceId) -> Seq<char> {
    match r {
        ResourceId::LocalMachine => "local_machine"@,
        ResourceId::CpuPackage { .. } => "cpu_package"@,
    }
}

impl ResourceConsumerId {
    /// The name of this variant, used by exporters as a label value.
    pub fn kind(&self) -> (r: &'static str)
        ensures
            r@ == spec_consumer_kind(*self),
    {
        match self {
            ResourceConsumerId::LocalMachine => "local_machine",
            ResourceConsumerId::Process { .. } => "process",
        }
    }
}

/// The variant name of a [`ResourceConsumerId`].
pub open spec fn spec_consumer_kind(c: ResourceConsumerId) -> Seq<char> {
    match c {
        ResourceConsumerId::LocalMachine => "local_machine"@,
        ResourceConsumerId::Process { .. } => "process"@,
    }
}

} // verus!
