use privileged::entry::{decision, eval, evaluate_resource, EvalOutcome, ParsedResource};
use privileged::evaluator::Category;
use privileged::workload::{ContainerSpec, SecuritySettings, WorkloadSpec};

#[test]
fn accepts_a_pod_with_one_container_and_no_security_context() {
    let input = r#"{"apiVersion":"v1","kind":"Pod","metadata":{"name":"nginx","labels":{"app":"nginx"}},"spec":{"containers":[{"name":"nginx","image":"nginx"}]}}"#;
    let outcome = eval(input);
    assert_eq!(outcome, EvalOutcome::Compliant);
    assert_eq!(decision(&outcome), true);
}

#[test]
fn accepts_a_pod_whose_containers_are_all_explicitly_unprivileged() {
    let input = r#"{"apiVersion":"v1","kind":"Pod","metadata":{"name":"web"},"spec":{"containers":[
        {"name":"a","image":"nginx","securityContext":{"privileged":false}},
        {"name":"b","image":"nginx","securityContext":{"privileged":false}},
        {"name":"c","image":"nginx","securityContext":{"privileged":false}}
    ]}}"#;
    let outcome = eval(input);
    assert_eq!(outcome, EvalOutcome::Compliant);
    assert_eq!(decision(&outcome), true);
}

#[test]
fn rejects_a_pod_whose_third_container_is_privileged() {
    let input = r#"{"apiVersion":"v1","kind":"Pod","metadata":{"name":"web"},"spec":{"containers":[
        {"name":"a","image":"nginx","securityContext":{"privileged":false}},
        {"name":"b","image":"nginx","securityContext":{"privileged":false}},
        {"name":"c","image":"nginx","securityContext":{"privileged":true}}
    ]}}"#;
    let outcome = eval(input);
    assert_eq!(outcome, EvalOutcome::Violation(Category::Container));
    assert_eq!(decision(&outcome), false);
}

#[test]
fn rejects_a_pod_whose_init_containers_are_all_privileged() {
    let input = r#"{"apiVersion":"v1","kind":"Pod","metadata":{"name":"web"},"spec":{"containers":[],"initContainers":[
        {"name":"a","image":"busybox","securityContext":{"privileged":true}},
        {"name":"b","image":"busybox","securityContext":{"privileged":true}},
        {"name":"c","image":"busybox","securityContext":{"privileged":true}}
    ]}}"#;
    let outcome = eval(input);
    assert_eq!(outcome, EvalOutcome::Violation(Category::InitContainer));
    assert_eq!(decision(&outcome), false);
}

#[test]
fn rejects_a_pod_whose_third_ephemeral_container_is_privileged() {
    let input = r#"{"apiVersion":"v1","kind":"Pod","metadata":{"name":"web"},"spec":{"containers":[],"ephemeralContainers":[
        {"name":"a","securityContext":{"privileged":false}},
        {"name":"b","securityContext":{"privileged":false}},
        {"name":"c","securityContext":{"privileged":true}}
    ]}}"#;
    let outcome = eval(input);
    assert_eq!(outcome, EvalOutcome::Violation(Category::EphemeralContainer));
    assert_eq!(decision(&outcome), false);
}

#[test]
fn rejects_malformed_input_with_a_parse_error() {
    let outcome = eval("this is not a resource object {{{");
    assert_eq!(outcome, EvalOutcome::ParseError);
    assert_eq!(decision(&outcome), false);
    assert_ne!(outcome, EvalOutcome::Violation(Category::Container));
    assert_ne!(outcome, EvalOutcome::Violation(Category::InitContainer));
    assert_ne!(outcome, EvalOutcome::Violation(Category::EphemeralContainer));
}

#[test]
fn accepts_a_resource_with_no_pod_specification() {
    let input = r#"{"apiVersion":"v1","kind":"Pod","metadata":{"name":"empty"}}"#;
    let outcome = eval(input);
    assert_eq!(outcome, EvalOutcome::Compliant);
    assert_eq!(decision(&outcome), true);
}

#[test]
fn rejects_input_of_the_wrong_shape_with_a_parse_error() {
    let outcome = eval(r#"{"apiVersion":"v1","kind":"Pod","spec":{"containers":5}}"#);
    assert_eq!(outcome, EvalOutcome::ParseError);
}

#[test]
fn parsing_keeps_the_privileged_flag_of_each_container() {
    let privileged_pod = r#"{"spec":{"containers":[{"name":"a","securityContext":{"privileged":true}}]}}"#;
    let unprivileged_pod = r#"{"spec":{"containers":[{"name":"a","securityContext":{"privileged":false}}]}}"#;
    assert_eq!(eval(privileged_pod), EvalOutcome::Violation(Category::Container));
    assert_eq!(eval(unprivileged_pod), EvalOutcome::Compliant);
}

#[test]
fn evaluates_malformed_and_missing_spec_resources_directly() {
    assert_eq!(evaluate_resource(&ParsedResource::Malformed), EvalOutcome::ParseError);
    assert_eq!(evaluate_resource(&ParsedResource::MissingSpec), EvalOutcome::Compliant);
}

#[test]
fn evaluates_a_parsed_workload_like_the_rule_evaluator() {
    let workload = WorkloadSpec {
        containers: vec![ContainerSpec {
            security_context: Some(SecuritySettings { privileged: Some(true) }),
        }],
        init_containers: None,
        ephemeral_containers: None,
    };
    assert_eq!(
        evaluate_resource(&ParsedResource::WithSpec(workload)),
        EvalOutcome::Violation(Category::Container)
    );
}
