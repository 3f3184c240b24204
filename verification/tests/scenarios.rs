use votaciones::{AccountId, Error, Event, ProposalCreated, VoteCast, Votaciones};

fn account(byte: u8) -> AccountId {
    AccountId::new([byte; 32])
}

#[test]
fn new_ledger_is_empty() {
    let mut ledger = Votaciones::new(account(1));
    assert_eq!(ledger.total_proposals(), 0);
    assert_eq!(ledger.get_proposal(0), Err(Error::ProposalNotFound));
    assert!(ledger.take_events().is_empty());
}

#[test]
fn no_stranger_creates_a_proposal() {
    let mut ledger = Votaciones::new(account(1));
    for byte in [0u8, 2, 3, 0x7f, 0xff] {
        assert_eq!(
            ledger.create_proposal(account(byte), "Tema".to_string()),
            Err(Error::NotOwner)
        );
        assert_eq!(ledger.total_proposals(), 0);
    }
    assert_eq!(ledger.get_proposal(0), Err(Error::ProposalNotFound));
    assert!(ledger.take_events().is_empty());
}

#[test]
fn refused_creation_leaves_the_count_at_zero() {
    let mut ledger = Votaciones::new(account(1));
    assert_eq!(ledger.create_proposal(account(2), "Tema".to_string()), Err(Error::NotOwner));
    assert_eq!(ledger.total_proposals(), 0);
}

#[test]
fn stranger_with_one_byte_off_is_refused() {
    let mut bytes = [0x01; 32];
    bytes[17] = 0x02;
    let mut ledger = Votaciones::new(account(1));
    assert_eq!(
        ledger.create_proposal(AccountId::new(bytes), "Tema".to_string()),
        Err(Error::NotOwner)
    );
}

#[test]
fn identifiers_count_up_from_zero() {
    let owner = account(1);
    let mut ledger = Votaciones::new(owner);
    for expected in 0..5u32 {
        assert_eq!(ledger.total_proposals(), expected);
        assert_eq!(
            ledger.create_proposal(account(9), "Otro".to_string()),
            Err(Error::NotOwner)
        );
        assert_eq!(ledger.create_proposal(owner, format!("Tema {}", expected)), Ok(expected));
        assert_eq!(ledger.total_proposals(), expected + 1);
    }
    for id in 0..5u32 {
        assert_eq!(ledger.get_proposal(id), Ok((format!("Tema {}", id), 0, 0)));
    }
    assert_eq!(ledger.get_proposal(5), Err(Error::ProposalNotFound));
}

#[test]
fn second_vote_is_refused_whichever_way_it_goes() {
    let owner = account(1);
    let voter = account(2);
    let mut ledger = Votaciones::new(owner);
    ledger.create_proposal(owner, "Tema".to_string()).unwrap();
    assert_eq!(ledger.vote(voter, 0, false), Ok(()));

    assert_eq!(ledger.vote(voter, 0, true), Err(Error::AlreadyVoted));
    assert_eq!(ledger.vote(voter, 0, false), Err(Error::AlreadyVoted));
    assert_eq!(ledger.get_proposal(0), Ok(("Tema".to_string(), 0, 1)));

    ledger.create_proposal(owner, "Otro".to_string()).unwrap();
    assert_eq!(ledger.vote(account(3), 0, true), Ok(()));
    assert_eq!(ledger.vote(voter, 0, true), Err(Error::AlreadyVoted));
    assert_eq!(ledger.get_proposal(0), Ok(("Tema".to_string(), 1, 1)));
}

#[test]
fn one_vote_per_proposal_not_per_ledger() {
    let owner = account(1);
    let voter = account(2);
    let mut ledger = Votaciones::new(owner);
    ledger.create_proposal(owner, "Uno".to_string()).unwrap();
    ledger.create_proposal(owner, "Dos".to_string()).unwrap();

    assert_eq!(ledger.vote(voter, 0, true), Ok(()));
    assert_eq!(ledger.vote(voter, 1, false), Ok(()));
    assert_eq!(ledger.vote(voter, 1, false), Err(Error::AlreadyVoted));

    assert_eq!(ledger.get_proposal(0), Ok(("Uno".to_string(), 1, 0)));
    assert_eq!(ledger.get_proposal(1), Ok(("Dos".to_string(), 0, 1)));
}

#[test]
fn tallies_count_distinct_voters() {
    let owner = account(1);
    let mut ledger = Votaciones::new(owner);
    ledger.create_proposal(owner, "Tema".to_string()).unwrap();

    let mut votes_for = 0;
    let mut votes_against = 0;
    for byte in 10..40u8 {
        let support = byte % 3 == 0;
        assert_eq!(ledger.vote(account(byte), 0, support), Ok(()));
        if support {
            votes_for += 1;
        } else {
            votes_against += 1;
        }
        assert_eq!(ledger.vote(account(byte), 0, !support), Err(Error::AlreadyVoted));
        assert_eq!(ledger.get_proposal(0), Ok(("Tema".to_string(), votes_for, votes_against)));
    }
    assert_eq!(ledger.get_proposal(0), Ok(("Tema".to_string(), 10, 20)));
}

#[test]
fn owner_may_vote() {
    let owner = account(1);
    let mut ledger = Votaciones::new(owner);
    ledger.create_proposal(owner, "Tema".to_string()).unwrap();
    assert_eq!(ledger.vote(owner, 0, true), Ok(()));
    assert_eq!(ledger.vote(owner, 0, true), Err(Error::AlreadyVoted));
    assert_eq!(ledger.get_proposal(0), Ok(("Tema".to_string(), 1, 0)));
}

#[test]
fn unassigned_identifier_is_not_found() {
    let owner = account(1);
    let mut ledger = Votaciones::new(owner);
    assert_eq!(ledger.vote(account(2), 42, true), Err(Error::ProposalNotFound));
    assert_eq!(ledger.get_proposal(42), Err(Error::ProposalNotFound));

    ledger.create_proposal(owner, "Tema".to_string()).unwrap();
    assert_eq!(ledger.vote(account(2), 1, true), Err(Error::ProposalNotFound));
    assert_eq!(ledger.get_proposal(1), Err(Error::ProposalNotFound));
    assert_eq!(ledger.vote(account(2), u32::MAX, false), Err(Error::ProposalNotFound));
    assert_eq!(ledger.get_proposal(u32::MAX), Err(Error::ProposalNotFound));
}

#[test]
fn refused_vote_on_unknown_proposal_is_not_remembered() {
    let owner = account(1);
    let voter = account(2);
    let mut ledger = Votaciones::new(owner);
    assert_eq!(ledger.vote(voter, 0, true), Err(Error::ProposalNotFound));

    ledger.create_proposal(owner, "Tema".to_string()).unwrap();
    assert_eq!(ledger.vote(voter, 0, true), Ok(()));
    assert_eq!(ledger.get_proposal(0), Ok(("Tema".to_string(), 1, 0)));
}

#[test]
fn failed_calls_change_nothing() {
    let owner = account(1);
    let voter = account(2);
    let mut ledger = Votaciones::new(owner);
    ledger.create_proposal(owner, "Tema".to_string()).unwrap();
    ledger.vote(voter, 0, true).unwrap();
    assert_eq!(ledger.take_events().len(), 2);

    assert_eq!(ledger.create_proposal(voter, "Otro".to_string()), Err(Error::NotOwner));
    assert_eq!(ledger.vote(voter, 0, false), Err(Error::AlreadyVoted));
    assert_eq!(ledger.vote(voter, 7, false), Err(Error::ProposalNotFound));

    assert_eq!(ledger.total_proposals(), 1);
    assert_eq!(ledger.get_proposal(0), Ok(("Tema".to_string(), 1, 0)));
    assert_eq!(ledger.get_proposal(1), Err(Error::ProposalNotFound));
    assert!(ledger.take_events().is_empty());

    assert_eq!(ledger.create_proposal(owner, "Otro".to_string()), Ok(1));
    assert_eq!(ledger.vote(account(3), 0, false), Ok(()));
    assert_eq!(ledger.get_proposal(0), Ok(("Tema".to_string(), 1, 1)));
}

#[test]
fn one_event_for_each_success_in_order() {
    let owner = account(1);
    let voter = account(2);
    let mut ledger = Votaciones::new(owner);
    ledger.create_proposal(owner, "Uno".to_string()).unwrap();
    ledger.create_proposal(voter, "No".to_string()).unwrap_err();
    ledger.vote(voter, 0, false).unwrap();
    ledger.vote(voter, 0, false).unwrap_err();
    ledger.create_proposal(owner, "Dos".to_string()).unwrap();

    let events = ledger.take_events();
    assert_eq!(
        events,
        vec![
            Event::ProposalCreated(ProposalCreated { id: 0, title: "Uno".to_string() }),
            Event::VoteCast(VoteCast { proposalid: 0, voter, state: false }),
            Event::ProposalCreated(ProposalCreated { id: 1, title: "Dos".to_string() }),
        ]
    );
}

#[test]
fn taken_events_are_not_handed_out_again() {
    let owner = account(1);
    let mut ledger = Votaciones::new(owner);
    ledger.create_proposal(owner, "Uno".to_string()).unwrap();
    assert_eq!(ledger.take_events().len(), 1);
    assert!(ledger.take_events().is_empty());

    ledger.vote(owner, 0, true).unwrap();
    let events = ledger.take_events();
    assert_eq!(events, vec![Event::VoteCast(VoteCast { proposalid: 0, voter: owner, state: true })]);
    assert_eq!(ledger.total_proposals(), 1);
    assert_eq!(ledger.get_proposal(0), Ok(("Uno".to_string(), 1, 0)));
}

#[test]
fn titles_are_kept_as_given() {
    let owner = account(1);
    let mut ledger = Votaciones::new(owner);
    let long = "x".repeat(10_000);
    assert_eq!(ledger.create_proposal(owner, String::new()), Ok(0));
    assert_eq!(ledger.create_proposal(owner, long.clone()), Ok(1));
    assert_eq!(ledger.create_proposal(owner, "Votación ñ".to_string()), Ok(2));
    assert_eq!(ledger.get_proposal(0), Ok((String::new(), 0, 0)));
    assert_eq!(ledger.get_proposal(1), Ok((long, 0, 0)));
    assert_eq!(ledger.get_proposal(2), Ok(("Votación ñ".to_string(), 0, 0)));
}
