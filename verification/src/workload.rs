//! The workload model: the typed representation of one pod's runtime
//! specification, its container lists, and each container's security context.
//! Pure data, no behaviour; the evaluator walks it.

use vstd::prelude::*;

verus! {

/// The security-relevant runtime settings attached to a container.
///
/// `privileged` is tri-state: `Some(true)`, `Some(false)`, or `None` (unset).
/// Only an explicit `Some(true)` marks the container as privileged; an unset
/// flag means the container is trusted by default.
#[derive(Debug, Clone)]
pub struct SecuritySettings {
    pub privileged: Option<bool>,
}

/// One entry of a pod's `containers` or `initContainers` list.
#[derive(Debug, Clone)]
pub struct ContainerSpec {
    pub security_context: Option<SecuritySettings>,
}

/// One entry of a pod's `ephemeralContainers` list.
#[derive(Debug, Clone)]
pub struct EphemeralContainerSpec {
    pub security_context: Option<SecuritySettings>,
}

/// One pod's runtime specification. `containers` is required (may be empty);
/// the other two lists are optional, and absence is treated by the evaluator
/// exactly like emptiness.
#[derive(Debug, Clone)]
pub struct WorkloadSpec {
    pub containers: Vec<ContainerSpec>,
    pub init_containers: Option<Vec<ContainerSpec>>,
    pub ephemeral_containers: Option<Vec<EphemeralContainerSpec>>,
}

/// A container is privileged exactly when it carries a security context whose
/// `privileged` flag is explicitly `true`. No security context, an unset flag,
/// and an explicit `false` all mean "not privileged".
pub open spec fn is_privileged(c: ContainerSpec) -> bool {
    match c.security_context {
        Some(sc) => sc.privileged == Some(true),
        None => false,
    }
}

/// The privilege predicate for ephemeral containers; the same tri-state rule
/// as [`is_privileged`].
pub open spec fn is_privileged_ephemeral(c: EphemeralContainerSpec) -> bool {
    match c.security_context {
        Some(sc) => sc.privileged == Some(true),
        None => false,
    }
}

/// The `containers` list of a workload, as a sequence.
pub open spec fn containers_of(w: WorkloadSpec) -> Seq<ContainerSpec> {
    w.containers@
}

/// The `initContainers` list of a workload; an absent list reads as empty,
/// so the evaluator treats absence and emptiness alike.
pub open spec fn init_containers_of(w: WorkloadSpec) -> Seq<ContainerSpec> {
    match w.init_containers {
        Some(v) => v@,
        None => Seq::empty(),
    }
}

/// The `ephemeralContainers` list of a workload; an absent list reads as empty.
pub open spec fn ephemeral_containers_of(w: WorkloadSpec) -> Seq<EphemeralContainerSpec> {
    match w.ephemeral_containers {
        Some(v) => v@,
        None => Seq::empty(),
    }
}

/// No entry of the sequence is privileged.
pub open spec fn all_unprivileged(s: Seq<ContainerSpec>) -> bool {
    forall|i: int| 0 <= i < s.len() ==> !is_privileged(s[i])
}

/// No entry of the sequence of ephemeral containers is privileged.
pub open spec fn all_unprivileged_ephemeral(s: Seq<EphemeralContainerSpec>) -> bool {
    forall|i: int| 0 <= i < s.len() ==> !is_privileged_ephemeral(s[i])
}

/// A workload complies with the policy when no entry of any of its three
/// container lists is privileged.
pub open spec fn workload_compliant(w: WorkloadSpec) -> bool {
    &&& all_unprivileged(containers_of(w))
    &&& all_unprivileged(init_containers_of(w))
    &&& all_unprivileged_ephemeral(ephemeral_containers_of(w))
}

} // verus!
