use voting_app::{
    initialize, ErrorCode, Identity, Initialize, OptionCount, VoteAccount, MAX_ALLOW, MAX_LABELS,
    MAX_LABEL_SIZE,
};

fn id(tag: u8) -> Identity {
    Identity::new([tag; 32])
}

fn stale_account() -> VoteAccount {
    VoteAccount {
        options: vec![OptionCount { label: "stale".to_string(), count: 9 }],
        voters: vec![id(9)],
        close_time: -1,
        allow_list: vec![id(8)],
    }
}

fn labels(n: usize) -> Vec<String> {
    (0..n).map(|i| format!("option {}", i)).collect()
}

fn ids(n: usize) -> Vec<Identity> {
    (0..n).map(|i| id(i as u8)).collect()
}

#[test]
fn initialize_fills_the_record() {
    let mut ctx = Initialize { vote_account: stale_account(), user: id(7) };
    let outcome = initialize(
        &mut ctx,
        vec!["red".to_string(), "green".to_string(), "blue".to_string()],
        2_000_000_000,
        vec![id(1), id(2)],
    );
    assert_eq!(outcome, Ok(()));
    assert_eq!(
        ctx.vote_account,
        VoteAccount {
            options: vec![
                OptionCount { label: "red".to_string(), count: 0 },
                OptionCount { label: "green".to_string(), count: 0 },
                OptionCount { label: "blue".to_string(), count: 0 },
            ],
            voters: Vec::new(),
            close_time: 2_000_000_000,
            allow_list: vec![id(1), id(2)],
        }
    );
    assert_eq!(ctx.user, id(7));
}

#[test]
fn initialize_accepts_no_labels_at_all() {
    let mut ctx = Initialize { vote_account: stale_account(), user: id(7) };
    assert_eq!(initialize(&mut ctx, Vec::new(), 0, Vec::new()), Ok(()));
    assert!(ctx.vote_account.options.is_empty());
    assert!(ctx.vote_account.voters.is_empty());
    assert!(ctx.vote_account.allow_list.is_empty());
    assert_eq!(ctx.vote_account.close_time, 0);
}

#[test]
fn initialize_accepts_ten_labels_and_refuses_eleven() {
    assert_eq!(MAX_LABELS, 10);
    let mut ctx = Initialize { vote_account: stale_account(), user: id(7) };
    assert_eq!(initialize(&mut ctx, labels(10), 1, Vec::new()), Ok(()));
    assert_eq!(ctx.vote_account.options.len(), 10);
    assert_eq!(ctx.vote_account.options[9].label, "option 9");

    let mut ctx = Initialize { vote_account: stale_account(), user: id(7) };
    assert_eq!(initialize(&mut ctx, labels(11), 1, Vec::new()), Err(ErrorCode::MaxLabelsExceeded));
    assert_eq!(ctx.vote_account, stale_account());
    assert_eq!(ctx.user, id(7));
}

#[test]
fn initialize_measures_labels_in_bytes() {
    assert_eq!(MAX_LABEL_SIZE, 32);
    let full = "a".repeat(32);
    let over = "a".repeat(33);
    let mut ctx = Initialize { vote_account: stale_account(), user: id(7) };
    assert_eq!(initialize(&mut ctx, vec![full.clone()], 1, Vec::new()), Ok(()));
    assert_eq!(ctx.vote_account.options[0].label, full);

    let mut ctx = Initialize { vote_account: stale_account(), user: id(7) };
    assert_eq!(
        initialize(&mut ctx, vec!["ok".to_string(), over], 1, Vec::new()),
        Err(ErrorCode::MaxLabelsExceeded)
    );
    assert_eq!(ctx.vote_account, stale_account());

    // Sixteen letters of two bytes each fill a label; eleven of three bytes
    // each are one byte too many, though they are fewer letters.
    let sixteen = "\u{e9}".repeat(16);
    assert_eq!(sixteen.len(), 32);
    let eleven = "\u{20ac}".repeat(11);
    assert_eq!(eleven.len(), 33);
    let mut ctx = Initialize { vote_account: stale_account(), user: id(7) };
    assert_eq!(initialize(&mut ctx, vec![sixteen], 1, Vec::new()), Ok(()));
    let mut ctx = Initialize { vote_account: stale_account(), user: id(7) };
    assert_eq!(initialize(&mut ctx, vec![eleven], 1, Vec::new()), Err(ErrorCode::MaxLabelsExceeded));
}

#[test]
fn initialize_accepts_fifty_allowed_and_refuses_fifty_one() {
    assert_eq!(MAX_ALLOW, 50);
    let mut ctx = Initialize { vote_account: stale_account(), user: id(7) };
    assert_eq!(initialize(&mut ctx, labels(2), 1, ids(50)), Ok(()));
    assert_eq!(ctx.vote_account.allow_list, ids(50));

    let mut ctx = Initialize { vote_account: stale_account(), user: id(7) };
    assert_eq!(initialize(&mut ctx, labels(2), 1, ids(51)), Err(ErrorCode::MaxAllowExceeded));
    assert_eq!(ctx.vote_account, stale_account());
}

#[test]
fn initialize_reports_labels_before_the_allow_list() {
    let mut ctx = Initialize { vote_account: stale_account(), user: id(7) };
    assert_eq!(initialize(&mut ctx, labels(11), 1, ids(51)), Err(ErrorCode::MaxLabelsExceeded));
    let mut ctx = Initialize { vote_account: stale_account(), user: id(7) };
    assert_eq!(
        initialize(&mut ctx, vec!["b".repeat(40)], 1, ids(51)),
        Err(ErrorCode::MaxLabelsExceeded)
    );
}

#[test]
fn initialize_takes_any_close_time() {
    for close_time in [i64::MIN, -1, 0, 1, i64::MAX] {
        let mut ctx = Initialize { vote_account: stale_account(), user: id(7) };
        assert_eq!(initialize(&mut ctx, labels(1), close_time, Vec::new()), Ok(()));
        assert_eq!(ctx.vote_account.close_time, close_time);
    }
}

#[test]
fn initialize_keeps_repeated_labels_and_allow_list_entries() {
    let mut ctx = Initialize { vote_account: stale_account(), user: id(7) };
    let outcome = initialize(
        &mut ctx,
        vec!["same".to_string(), "same".to_string()],
        10,
        vec![id(1), id(1), id(2)],
    );
    assert_eq!(outcome, Ok(()));
    assert_eq!(ctx.vote_account.options.len(), 2);
    assert_eq!(ctx.vote_account.options[0].label, "same");
    assert_eq!(ctx.vote_account.options[1].label, "same");
    assert_eq!(ctx.vote_account.allow_list, vec![id(1), id(1), id(2)]);
}
