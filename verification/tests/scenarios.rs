use voting_app::{
    initialize, vote_at, ErrorCode, Identity, Initialize, OptionCount, Vote, VoteAccount,
};

fn id(tag: u8) -> Identity {
    Identity::new([tag; 32])
}

fn empty_account() -> VoteAccount {
    VoteAccount { options: Vec::new(), voters: Vec::new(), close_time: 0, allow_list: Vec::new() }
}

fn create(labels: &[&str], close_time: i64, allow_list: Vec<Identity>) -> VoteAccount {
    let mut ctx = Initialize { vote_account: empty_account(), user: id(200) };
    let labels: Vec<String> = labels.iter().map(|l| l.to_string()).collect();
    assert_eq!(initialize(&mut ctx, labels, close_time, allow_list), Ok(()));
    ctx.vote_account
}

fn tallies(account: &VoteAccount) -> Vec<(String, u64)> {
    account.options.iter().map(|o| (o.label.clone(), o.count)).collect()
}

fn session_one() -> VoteAccount {
    let account = create(&["red", "green", "blue"], 2_000_000_000, Vec::new());
    let mut ctx = Vote { vote_account: account, user: id(b'A') };
    assert!(vote_at(&mut ctx, 1, 1_700_000_000).is_ok());
    ctx.user = id(b'B');
    assert!(vote_at(&mut ctx, 1, 1_700_000_001).is_ok());
    ctx.user = id(b'C');
    assert!(vote_at(&mut ctx, 0, 1_700_000_002).is_ok());
    ctx.vote_account
}

#[test]
fn happy_path_public_session() {
    let account = session_one();
    assert_eq!(
        tallies(&account),
        vec![("red".to_string(), 1), ("green".to_string(), 2), ("blue".to_string(), 0)]
    );
    assert_eq!(account.voters.len(), 3);
    assert_eq!(account.voters, vec![id(b'A'), id(b'B'), id(b'C')]);
    assert_eq!(account.close_time, 2_000_000_000);
    assert!(account.allow_list.is_empty());
}

#[test]
fn double_vote_rejected() {
    let account = session_one();
    let before = account.clone();
    let mut ctx = Vote { vote_account: account, user: id(b'A') };
    assert_eq!(vote_at(&mut ctx, 0, 1_700_000_003), Err(ErrorCode::AlreadyVoted));
    assert_eq!(ctx.vote_account, before);
}

#[test]
fn invalid_index() {
    let account = session_one();
    let before = account.clone();
    let mut ctx = Vote { vote_account: account, user: id(b'D') };
    assert_eq!(vote_at(&mut ctx, 7, 1_700_000_003), Err(ErrorCode::InvalidChoice));
    assert!(!ctx.vote_account.voters.contains(&id(b'D')));
    assert_eq!(ctx.vote_account, before);
}

#[test]
fn expiry() {
    let account = create(&["yes", "no"], 1000, Vec::new());
    let mut ctx = Vote { vote_account: account, user: id(b'A') };
    assert!(vote_at(&mut ctx, 0, 1000).is_ok());
    ctx.user = id(b'B');
    assert_eq!(vote_at(&mut ctx, 0, 1001), Err(ErrorCode::VotingClosed));
    assert_eq!(tallies(&ctx.vote_account), vec![("yes".to_string(), 1), ("no".to_string(), 0)]);
    assert_eq!(ctx.vote_account.voters, vec![id(b'A')]);
}

#[test]
fn private_allow_list() {
    let account = create(&["a", "b"], i64::MAX, vec![id(b'X'), id(b'Y')]);
    let mut ctx = Vote { vote_account: account, user: id(b'Z') };
    assert_eq!(vote_at(&mut ctx, 0, 5), Err(ErrorCode::PermissionDenied));
    ctx.user = id(b'X');
    assert!(vote_at(&mut ctx, 0, 5).is_ok());
    ctx.user = id(b'Y');
    assert!(vote_at(&mut ctx, 1, 5).is_ok());
    assert_eq!(tallies(&ctx.vote_account), vec![("a".to_string(), 1), ("b".to_string(), 1)]);
    assert_eq!(ctx.vote_account.voters, vec![id(b'X'), id(b'Y')]);
}

#[test]
fn overflow_guard() {
    let account = VoteAccount {
        options: vec![OptionCount { label: "only".to_string(), count: u64::MAX }],
        voters: Vec::new(),
        close_time: 1000,
        allow_list: Vec::new(),
    };
    let before = account.clone();
    let mut ctx = Vote { vote_account: account, user: id(1) };
    assert_eq!(vote_at(&mut ctx, 0, 0), Err(ErrorCode::Overflow));
    assert!(ctx.vote_account.voters.is_empty());
    assert_eq!(ctx.vote_account.options[0].count, u64::MAX);
    assert_eq!(ctx.vote_account, before);
}

#[test]
fn tally_just_below_the_limit_takes_one_more_vote() {
    let account = VoteAccount {
        options: vec![OptionCount { label: "only".to_string(), count: u64::MAX - 1 }],
        voters: Vec::new(),
        close_time: 1000,
        allow_list: Vec::new(),
    };
    let mut ctx = Vote { vote_account: account, user: id(1) };
    assert_eq!(vote_at(&mut ctx, 0, 0), Ok("Voted for: only".to_string()));
    assert_eq!(ctx.vote_account.options[0].count, u64::MAX);
    ctx.user = id(2);
    assert_eq!(vote_at(&mut ctx, 0, 0), Err(ErrorCode::Overflow));
    assert_eq!(ctx.vote_account.voters, vec![id(1)]);
}
