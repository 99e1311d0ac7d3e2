use kvstore::workload::{
    classify_op, plan_request, random_transaction, read_is_correct, transaction_from_rolls, Op,
    ReadTally, KEY_SPACE,
};

#[test]
fn rolls_split_by_shares() {
    assert_eq!(classify_op(0, 90, 10), Op::Get);
    assert_eq!(classify_op(89, 90, 10), Op::Get);
    assert_eq!(classify_op(90, 90, 10), Op::Put);
    assert_eq!(classify_op(99, 90, 10), Op::Put);
    assert_eq!(classify_op(60, 50, 10), Op::Delete);
    assert_eq!(classify_op(99, 200, 200), Op::Get);
    assert_eq!(classify_op(250, 200, 100), Op::Put);
}

#[test]
fn transaction_follows_rolls() {
    let ops = transaction_from_rolls(&vec![5, 55, 95], 50, 40);
    assert_eq!(ops, vec![Op::Get, Op::Put, Op::Delete]);
    assert!(transaction_from_rolls(&Vec::new(), 50, 50).is_empty());
}

#[test]
fn random_transactions_have_one_to_nine_operations() {
    for _ in 0..200 {
        let ops = random_transaction(100, 0);
        assert!(!ops.is_empty() && ops.len() < 10);
        assert!(ops.iter().all(|op| *op == Op::Get));
        let writes = random_transaction(0, 100);
        assert!(writes.iter().all(|op| *op == Op::Put));
        let removals = random_transaction(0, 0);
        assert!(removals.iter().all(|op| *op == Op::Delete));
    }
}

#[test]
fn requests_stay_in_key_space() {
    for _ in 0..200 {
        let r = plan_request(Op::Put);
        assert_eq!(r.op, Op::Put);
        assert!(r.key_id < KEY_SPACE && r.value_id < KEY_SPACE);
        let g = plan_request(Op::Get);
        assert_eq!(g.value_id, 0);
    }
}

#[test]
fn reads_are_judged_against_the_last_write() {
    let v = "value7".to_string();
    assert!(read_is_correct(Some(&v), &"value7".to_string()));
    assert!(!read_is_correct(Some(&v), &"value8".to_string()));
    assert!(!read_is_correct(None, &String::new()));
}

#[test]
fn tally_counts_reads() {
    let mut t = ReadTally::new();
    assert_eq!(t.counts(), (0, 0));
    t.record(true);
    t.record(false);
    t.record(true);
    assert_eq!(t.counts(), (2, 3));
}
