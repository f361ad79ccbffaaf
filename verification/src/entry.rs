//! The evaluation entry point: parses one incoming resource description,
//! builds the workload model from it, and hands the model to the rule
//! evaluator. The parse and the pod schema come from outside crates; their
//! result is a function of the input text alone, named [`parse_of`], and
//! everything downstream of it is verified against that name.

use vstd::prelude::*;

use crate::evaluator::{first_violation, validate_pod, Category};
use crate::workload::{
    workload_compliant, ContainerSpec, EphemeralContainerSpec, SecuritySettings, WorkloadSpec,
};

verus! {

/// What one incoming resource description parsed to: text that is not a
/// valid resource, a resource without a pod specification, or a resource
/// carrying one.
#[derive(Debug, Clone)]
pub enum ParsedResource {
    Malformed,
    MissingSpec,
    WithSpec(WorkloadSpec),
}

/// The outcome of one evaluation. A parse failure is kept distinct from a
/// policy violation; the category of a violation is available for
/// diagnostics.
#[derive(Debug, Clone, Copy, PartialEq, Eq, Structural)]
pub enum EvalOutcome {
    ParseError,
    Compliant,
    Violation(Category),
}

/// The outcome owed for each parse result: fail closed on malformed input,
/// accept a resource with nothing to validate, and otherwise report what the
/// rule evaluator decides.
pub open spec fn outcome_of(r: ParsedResource) -> EvalOutcome {
    match r {
        ParsedResource::Malformed => EvalOutcome::ParseError,
        ParsedResource::MissingSpec => EvalOutcome::Compliant,
        ParsedResource::WithSpec(w) => match first_violation(w) {
            None => EvalOutcome::Compliant,
            Some(c) => EvalOutcome::Violation(c),
        },
    }
}

/// The accept/reject signal of an outcome: only a compliant workload is
/// accepted; a parse failure and a violation are both rejections.
pub open spec fn decision_of(o: EvalOutcome) -> bool {
    o is Compliant
}

/// Relies on k8s_openapi's `PodSpec`: the pod's runtime specification,
/// carried opaquely from the parse into the model conversion.
#[verifier::external_type_specification]
#[verifier::external_body]
pub struct ExPodSpec(k8s_openapi::api::core::v1::PodSpec);

/// Relies on k8s_openapi's `Container`: one entry of `containers` or
/// `initContainers`.
#[verifier::external_type_specification]
#[verifier::external_body]
pub struct ExContainer(k8s_openapi::api::core::v1::Container);

/// Relies on k8s_openapi's `EphemeralContainer`: one entry of
/// `ephemeralContainers`.
#[verifier::external_type_specification]
#[verifier::external_body]
pub struct ExEphemeralContainer(k8s_openapi::api::core::v1::EphemeralContainer);

pub uninterp spec fn parse_of(s: Seq<char>) -> ParsedResource;

/// Relies on the fields `security_context` of k8s_openapi's `Container` and
/// `privileged` of its `SecurityContext`: moves them into the workload model,
/// one for one.
#[verifier::external_body]
fn container_from(container: k8s_openapi::api::core::v1::Container) -> ContainerSpec {
    ContainerSpec {
        security_context: container
            .security_context
            .map(|sc| SecuritySettings { privileged: sc.privileged }),
    }
}

/// Relies on the fields `security_context` of k8s_openapi's
/// `EphemeralContainer` and `privileged` of its `SecurityContext`: moves them
/// into the workload model, one for one.
#[verifier::external_body]
fn ephemeral_container_from(
    container: k8s_openapi::api::core::v1::EphemeralContainer,
) -> EphemeralContainerSpec {
    EphemeralContainerSpec {
        security_context: container
            .security_context
            .map(|sc| SecuritySettings { privileged: sc.privileged }),
    }
}

/// Relies on the fields `containers`, `init_containers` and
/// `ephemeral_containers` of k8s_openapi's `PodSpec`: carries each list into
/// the workload model entry by entry, keeping sequence order and keeping an
/// absent list distinct from an empty one.
#[verifier::external_body]
fn workload_from(spec: k8s_openapi::api::core::v1::PodSpec) -> WorkloadSpec {
    WorkloadSpec {
        containers: spec.containers.into_iter().map(container_from).collect(),
        init_containers: spec
            .init_containers
            .map(|list| list.into_iter().map(container_from).collect()),
        ephemeral_containers: spec
            .ephemeral_containers
            .map(|list| list.into_iter().map(ephemeral_container_from).collect()),
    }
}

/// Parses one resource description. Relies on serde_json::from_str with
/// k8s_openapi's `Pod` schema: the parse ignores fields the schema does not
/// know, returns an error exactly when the text is not valid JSON of the
/// resource shape, and its result depends on the text alone — so the parsed
/// model, field-by-field carry included, is named [`parse_of`].
#[verifier::external_body]
pub fn parse_resource(input: &str) -> (r: ParsedResource)
    ensures
        r == parse_of(input@),
{
    match serde_json::from_str::<k8s_openapi::api::core::v1::Pod>(input) {
        Err(_) => ParsedResource::Malformed,
        Ok(pod) => match pod.spec {
            None => ParsedResource::MissingSpec,
            Some(spec) => ParsedResource::WithSpec(workload_from(spec)),
        },
    }
}

/// Maps one parse result to its outcome: malformed input is rejected without
/// evaluation (fail closed), a resource with no pod specification is accepted
/// (nothing to validate), and a present specification is handed to the rule
/// evaluator.
pub fn evaluate_resource(resource: &ParsedResource) -> (o: EvalOutcome)
    ensures
        o == outcome_of(*resource),
{
    match resource {
        ParsedResource::Malformed => EvalOutcome::ParseError,
        ParsedResource::MissingSpec => EvalOutcome::Compliant,
        ParsedResource::WithSpec(w) => match validate_pod(w) {
            Ok(_) => EvalOutcome::Compliant,
            Err(v) => EvalOutcome::Violation(v.category),
        },
    }
}

/// The boolean decision the host reads back: true to accept, false to
/// reject.
pub fn decision(outcome: &EvalOutcome) -> (d: bool)
    ensures
        d == decision_of(*outcome),
{
    match outcome {
        EvalOutcome::Compliant => true,
        _ => false,
    }
}

/// Evaluates one resource description end to end: parse, build the model,
/// decide. The outcome is exactly the one owed for what the text parses to.
pub fn eval(input: &str) -> (o: EvalOutcome)
    ensures
        o == outcome_of(parse_of(input@)),
{
    let resource = parse_resource(input);
    evaluate_resource(&resource)
}

/// Evaluating one unchanged description twice yields identical outcomes: what
/// a text parses to is a function of the text alone, and the outcome a
/// function of the parse result.
pub proof fn lemma_eval_deterministic(s: Seq<char>, o1: EvalOutcome, o2: EvalOutcome)
    requires
        o1 == outcome_of(parse_of(s)),
        o2 == outcome_of(parse_of(s)),
    ensures
        o1 == o2,
{
}

/// The decision fails closed: the accept signal is true exactly for a parsed
/// resource that carries no pod specification or whose workload is compliant.
/// Malformed input is never accepted, and a workload is never accepted on the
/// strength of anything but the rule itself.
pub proof fn lemma_decision_fails_closed(r: ParsedResource)
    ensures
        decision_of(outcome_of(r)) <==> match r {
            ParsedResource::Malformed => false,
            ParsedResource::MissingSpec => true,
            ParsedResource::WithSpec(w) => workload_compliant(w),
        },
{
}

} // verus!
