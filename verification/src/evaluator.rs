//! The rule evaluator: a pure function that walks a [`WorkloadSpec`] and
//! decides whether it complies with the policy that no container runs in
//! privileged mode. On failure it reports the category of the first offending
//! entry in traversal order; it is a single-violation reporter, not an
//! aggregator.

use vstd::prelude::*;

use crate::workload::{
    all_unprivileged, all_unprivileged_ephemeral, containers_of, ephemeral_containers_of,
    init_containers_of, is_privileged, is_privileged_ephemeral, workload_compliant, ContainerSpec,
    EphemeralContainerSpec, WorkloadSpec,
};

verus! {

/// Which of the three container lists produced the first offending entry.
#[derive(Debug, Clone, Copy, PartialEq, Eq, Structural)]
pub enum Category {
    Container,
    InitContainer,
    EphemeralContainer,
}

/// A policy violation: the workload holds at least one privileged entry, and
/// `category` names the list of the first one in traversal order.
#[derive(Debug, Clone, Copy, PartialEq, Eq, Structural)]
pub struct Violation {
    pub category: Category,
}

/// The category of the first offending entry under the traversal order
/// `containers`, then `initContainers`, then `ephemeralContainers`;
/// `None` when the workload is compliant.
pub open spec fn first_violation(w: WorkloadSpec) -> Option<Category> {
    if !all_unprivileged(containers_of(w)) {
        Some(Category::Container)
    } else if !all_unprivileged(init_containers_of(w)) {
        Some(Category::InitContainer)
    } else if !all_unprivileged_ephemeral(ephemeral_containers_of(w)) {
        Some(Category::EphemeralContainer)
    } else {
        None
    }
}

/// What evaluating a workload returns: `Ok(true)` exactly when it is
/// compliant, otherwise the violation for the first offending category.
pub open spec fn evaluation_of(w: WorkloadSpec) -> Result<bool, Violation> {
    match first_violation(w) {
        None => Ok(true),
        Some(c) => Err(Violation { category: c }),
    }
}

/// Decides whether one container is acceptable: true exactly when the
/// container is not privileged. Only an explicit `privileged: true` in a
/// present security context rejects it.
pub fn validate_container(container: &ContainerSpec) -> (valid: bool)
    ensures
        valid == !is_privileged(*container),
{
    if let Some(security_context) = &container.security_context {
        return !security_context.privileged.unwrap_or(false);
    }
    true
}

/// Decides whether one ephemeral container is acceptable, under the same
/// tri-state rule as [`validate_container`].
pub fn validate_ephemeral_container(container: &EphemeralContainerSpec) -> (valid: bool)
    ensures
        valid == !is_privileged_ephemeral(*container),
{
    if let Some(security_context) = &container.security_context {
        return !security_context.privileged.unwrap_or(false);
    }
    true
}

/// Evaluates a whole workload: walks `containers`, then `initContainers`,
/// then `ephemeralContainers`, in sequence order, and stops at the first
/// privileged entry. Returns `Ok(true)` exactly when no entry of any list is
/// privileged, and otherwise the violation naming the earliest offending
/// category. The result is a pure function of the workload.
#[verifier::loop_isolation(false)]
pub fn validate_pod(workload: &WorkloadSpec) -> (r: Result<bool, Violation>)
    ensures
        r == evaluation_of(*workload),
        r is Ok <==> workload_compliant(*workload),
{
    let mut i: usize = 0;
    while i < workload.containers.len()
        invariant
            i <= workload.containers@.len(),
            forall|j: int| 0 <= j < i ==> !is_privileged(workload.containers@[j]),
        decreases workload.containers@.len() - i,
    {
        if !validate_container(&workload.containers[i]) {
            return Err(Violation { category: Category::Container });
        }
        i += 1;
    }
    if let Some(init_containers) = &workload.init_containers {
        let mut i: usize = 0;
        while i < init_containers.len()
            invariant
                i <= init_containers@.len(),
                forall|j: int| 0 <= j < i ==> !is_privileged(init_containers@[j]),
            decreases init_containers@.len() - i,
        {
            if !validate_container(&init_containers[i]) {
                return Err(Violation { category: Category::InitContainer });
            }
            i += 1;
        }
    }
    if let Some(ephemeral_containers) = &workload.ephemeral_containers {
        let mut i: usize = 0;
        while i < ephemeral_containers.len()
            invariant
                i <= ephemeral_containers@.len(),
                forall|j: int| 0 <= j < i ==> !is_privileged_ephemeral(ephemeral_containers@[j]),
            decreases ephemeral_containers@.len() - i,
        {
            if !validate_ephemeral_container(&ephemeral_containers[i]) {
                return Err(Violation { category: Category::EphemeralContainer });
            }
            i += 1;
        }
    }
    Ok(true)
}

/// A workload with an empty `containers` list and no `initContainers` or
/// `ephemeralContainers` is compliant: with nothing to violate the rule,
/// evaluation accepts it vacuously.
pub proof fn lemma_empty_workload_compliant(w: WorkloadSpec)
    requires
        w.containers@.len() == 0,
        w.init_containers is None,
        w.ephemeral_containers is None,
    ensures
        workload_compliant(w),
        evaluation_of(w) == Ok::<bool, Violation>(true),
{
}

/// A container with no security context at all is not privileged.
pub proof fn lemma_no_security_context_unprivileged(c: ContainerSpec)
    requires
        c.security_context is None,
    ensures
        !is_privileged(c),
{
}

/// An ephemeral container with no security context at all is not privileged.
pub proof fn lemma_no_security_context_unprivileged_ephemeral(c: EphemeralContainerSpec)
    requires
        c.security_context is None,
    ensures
        !is_privileged_ephemeral(c),
{
}

/// Only an explicit `privileged: true` makes a container privileged: a
/// missing security context, an unset flag, and an explicit `false` all
/// evaluate to not-privileged.
pub proof fn lemma_only_explicit_true_is_privileged(c: ContainerSpec)
    ensures
        is_privileged(c) <==> (c.security_context matches Some(sc) && sc.privileged == Some(
            true,
        )),
{
}

/// The tri-state rule of [`lemma_only_explicit_true_is_privileged`], for
/// ephemeral containers.
pub proof fn lemma_only_explicit_true_is_privileged_ephemeral(c: EphemeralContainerSpec)
    ensures
        is_privileged_ephemeral(c) <==> (c.security_context matches Some(sc) && sc.privileged
            == Some(true)),
{
}

/// A privileged entry anywhere in `containers` makes evaluation reject the
/// workload with category `Container`, whatever the other lists hold:
/// `containers` comes first in traversal order.
pub proof fn lemma_privileged_container_rejected(w: WorkloadSpec, i: int)
    requires
        0 <= i < containers_of(w).len(),
        is_privileged(containers_of(w)[i]),
    ensures
        first_violation(w) == Some(Category::Container),
        evaluation_of(w) == Err::<bool, Violation>(Violation { category: Category::Container }),
{
}

/// When every entry of `containers` is unprivileged, a privileged entry
/// anywhere in `initContainers` makes evaluation reject the workload with
/// category `InitContainer`, whatever `ephemeralContainers` holds.
pub proof fn lemma_privileged_init_container_rejected(w: WorkloadSpec, i: int)
    requires
        all_unprivileged(containers_of(w)),
        0 <= i < init_containers_of(w).len(),
        is_privileged(init_containers_of(w)[i]),
    ensures
        first_violation(w) == Some(Category::InitContainer),
        evaluation_of(w) == Err::<bool, Violation>(
            Violation { category: Category::InitContainer },
        ),
{
}

/// When every entry of `containers` and of `initContainers` is unprivileged,
/// a privileged entry anywhere in `ephemeralContainers` makes evaluation
/// reject the workload with category `EphemeralContainer`.
pub proof fn lemma_privileged_ephemeral_container_rejected(w: WorkloadSpec, i: int)
    requires
        all_unprivileged(containers_of(w)),
        all_unprivileged(init_containers_of(w)),
        0 <= i < ephemeral_containers_of(w).len(),
        is_privileged_ephemeral(ephemeral_containers_of(w)[i]),
    ensures
        first_violation(w) == Some(Category::EphemeralContainer),
        evaluation_of(w) == Err::<bool, Violation>(
            Violation { category: Category::EphemeralContainer },
        ),
{
}

/// Evaluation is idempotent: two results obtained for one unchanged workload
/// are identical, because the result is a pure function of the workload.
pub proof fn lemma_evaluation_idempotent(
    w: WorkloadSpec,
    r1: Result<bool, Violation>,
    r2: Result<bool, Violation>,
)
    requires
        r1 == evaluation_of(w),
        r2 == evaluation_of(w),
    ensures
        r1 == r2,
{
}

} // verus!
