use votaciones::{AccountId, Error, Event, Votaciones};

fn alice() -> AccountId {
    AccountId::new([0x01; 32])
}

fn bob() -> AccountId {
    AccountId::new([0x02; 32])
}

#[test]
fn owner_can_create_proposal() {
    let mut contract = Votaciones::new(alice());

    let result = contract.create_proposal(alice(), "Titulo".to_string());
    assert_eq!(result, Ok(0));

    let proposal = contract.get_proposal(0).expect("proposal stored");
    assert_eq!(proposal, ("Titulo".to_string(), 0, 0));
    assert_eq!(contract.total_proposals(), 1);

    let events: Vec<Event> = contract.take_events();
    assert_eq!(events.len(), 1);
    match &events[0] {
        Event::ProposalCreated(decoded) => {
            assert_eq!(decoded.id, 0);
            assert_eq!(decoded.title, "Titulo");
        }
        other => panic!("decode event: {:?}", other),
    }
}

#[test]
fn non_owner_cannot_create_proposal() {
    let mut contract = Votaciones::new(alice());

    let result = contract.create_proposal(bob(), "Tema".to_string());
    assert_eq!(result, Err(Error::NotOwner));
}

#[test]
fn vote_records_support() {
    let mut contract = Votaciones::new(alice());
    let proposal_id = contract.create_proposal(alice(), "Tema".to_string()).unwrap();

    let outcome = contract.vote(bob(), proposal_id, true);
    assert_eq!(outcome, Ok(()));

    let (_, votes_for, votes_against) = contract.get_proposal(proposal_id).unwrap();
    assert_eq!(votes_for, 1);
    assert_eq!(votes_against, 0);

    let events: Vec<Event> = contract.take_events();
    match events.last().unwrap() {
        Event::VoteCast(decoded) => {
            assert_eq!(decoded.proposalid, proposal_id);
            assert_eq!(decoded.voter, bob());
            assert!(decoded.state);
        }
        other => panic!("decode event: {:?}", other),
    }
}

#[test]
fn voting_twice_reverts() {
    let mut contract = Votaciones::new(alice());
    let proposal_id = contract.create_proposal(alice(), "Tema".to_string()).unwrap();

    assert_eq!(contract.vote(bob(), proposal_id, true), Ok(()));
    let second = contract.vote(bob(), proposal_id, true);
    assert_eq!(second, Err(Error::AlreadyVoted));

    let (_, votes_for, votes_against) = contract.get_proposal(proposal_id).unwrap();
    assert_eq!(votes_for, 1);
    assert_eq!(votes_against, 0);
}

#[test]
fn voting_nonexistent_reverts() {
    let mut contract = Votaciones::new(alice());

    let result = contract.vote(bob(), 42, true);
    assert_eq!(result, Err(Error::ProposalNotFound));
}

#[test]
fn e2e_create_and_vote() {
    let mut contract = Votaciones::new(alice());

    let proposal_id = contract.create_proposal(alice(), "Tema".into());
    assert_eq!(proposal_id, Ok(0));

    assert_eq!(contract.vote(bob(), 0, true), Ok(()));

    let (title, votes_for, votes_against) = contract.get_proposal(0).unwrap();
    assert_eq!(title, "Tema");
    assert_eq!(votes_for, 1);
    assert_eq!(votes_against, 0);
}

#[test]
fn e2e_double_vote_reverts() {
    let mut contract = Votaciones::new(alice());
    contract.create_proposal(alice(), "Tema".into()).unwrap();
    contract.vote(bob(), 0, true).unwrap();

    let second_vote = contract.vote(bob(), 0, true);
    assert_eq!(second_vote, Err(Error::AlreadyVoted));
}

#[test]
fn e2e_vote_nonexistent_reverts() {
    let mut contract = Votaciones::new(alice());

    let result = contract.vote(bob(), 99, true);
    assert_eq!(result, Err(Error::ProposalNotFound));
}
