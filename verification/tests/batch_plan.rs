use dbcore::batch::BatchPlan;
use dbcore::executor::BatchStatement;
use dbcore::value::ExternalValue;

#[test]
fn short_circuits_after_first_failure() {
    // Statements: [S1 (valid), S2 (invalid), S3 (valid)].
    let mut plan = BatchPlan::new(3);
    assert_eq!(plan.next_statement(), Some(0));
    plan.record_success(); // S1 ran; its effects stand
    assert_eq!(plan.next_statement(), Some(1));
    plan.record_failure(); // S2 failed
    assert_eq!(plan.next_statement(), None); // S3 never runs
    assert_eq!(plan.executed, 1);
    assert!(plan.failed);
}

#[test]
fn runs_all_statements_when_none_fails() {
    let mut plan = BatchPlan::new(2);
    assert_eq!(plan.next_statement(), Some(0));
    plan.record_success();
    assert_eq!(plan.next_statement(), Some(1));
    plan.record_success();
    assert_eq!(plan.next_statement(), None);
    assert_eq!(plan.executed, 2);
    assert!(!plan.failed);
}

#[test]
fn plan_directs_statements_in_order() {
    let stmts = vec![
        BatchStatement { sql: String::from("S1"), args: None },
        BatchStatement {
            sql: String::from("S2"),
            args: Some(vec![ExternalValue::Integer(1)]),
        },
    ];
    let mut plan = BatchPlan::new(stmts.len());
    let mut seen: Vec<String> = Vec::new();
    while let Some(i) = plan.next_statement() {
        seen.push(stmts[i].sql.clone());
        plan.record_success();
    }
    assert_eq!(seen, vec![String::from("S1"), String::from("S2")]);
}

#[test]
fn empty_batch_is_done_at_once() {
    let plan = BatchPlan::new(0);
    assert_eq!(plan.next_statement(), None);
}
