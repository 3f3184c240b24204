use votaciones::{AccountId, Error, Proposal};

#[test]
fn new_proposal_has_no_votes() {
    let proposal = Proposal::new(5, "Tema".to_string());
    assert_eq!(proposal.id(), 5);
    assert_eq!(proposal.title(), "Tema");
    assert_eq!(proposal.votes_for(), 0);
    assert_eq!(proposal.votes_against(), 0);
    assert_eq!(proposal, Proposal::from_parts(5, "Tema".to_string(), 0, 0));
}

#[test]
fn parts_come_back_as_given() {
    let proposal = Proposal::from_parts(9, "Titulo".to_string(), 4, 6);
    assert_eq!(proposal.id(), 9);
    assert_eq!(proposal.title(), "Titulo");
    assert_eq!(proposal.votes_for(), 4);
    assert_eq!(proposal.votes_against(), 6);
}

#[test]
fn counting_a_vote_keeps_id_and_title() {
    let proposal = Proposal::new(2, "Tema".to_string());
    let counted = proposal.with_vote(true).unwrap().with_vote(false).unwrap();
    assert_eq!(counted.id(), 2);
    assert_eq!(counted.title(), "Tema");
    assert_eq!(counted.votes_for(), 1);
    assert_eq!(counted.votes_against(), 1);
    assert_eq!(proposal.votes_for(), 0);
    assert_eq!(proposal.votes_against(), 0);
}

#[test]
fn counting_past_the_limit_is_refused() {
    let proposal = Proposal::from_parts(0, "Tema".to_string(), u32::MAX, u32::MAX);
    assert_eq!(proposal.with_vote(true), Err(Error::Overflow));
    assert_eq!(proposal.with_vote(false), Err(Error::Overflow));
}

#[test]
fn identities_compare_by_their_bytes() {
    let mut bytes = [0x07; 32];
    let first = AccountId::new(bytes);
    assert_eq!(first, AccountId::new([0x07; 32]));
    assert_eq!(first.bytes, [0x07; 32]);

    bytes[31] = 0x08;
    assert_ne!(first, AccountId::new(bytes));

    let mut bytes = [0x07; 32];
    bytes[0] = 0x00;
    assert_ne!(first, AccountId::new(bytes));
}
