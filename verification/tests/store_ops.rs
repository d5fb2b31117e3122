use quiz_store::error::Error;
use quiz_store::record::{Quiz, QuizPayload};
use quiz_store::store::{
    admit_read, answer_quiz, apply_delete, apply_edit, apply_vote, create_quiz, delete_quiz,
    do_insert, get_all_quiz, get_quiz, next_id, peek_next_id, read_stored, remove, scan_all,
    settle_allocation, update_quiz, Store, _get_quiz, COUNTER_PARTITION, COUNTER_SEED,
    RECORDS_PARTITION,
};

fn fresh() -> Store {
    Store::init().expect("a fresh memory opens")
}

fn payload(question: &str, options: &[&str]) -> QuizPayload {
    QuizPayload {
        question: question.to_string(),
        options: options.iter().map(|s| s.to_string()).collect(),
    }
}

fn anyone() -> String {
    "anyone".to_string()
}

#[test]
fn color_poll_from_creation_to_deletion() {
    let mut store = fresh();
    let quiz = create_quiz(&mut store, payload("Pick a color", &["red", "blue"]), None, 100).unwrap();
    assert_eq!(quiz.id, 1);
    assert_eq!(quiz.options, vec!["red".to_string(), "blue".to_string()]);
    assert_eq!(quiz.answers, vec![0, 0]);
    assert_eq!(quiz.tally_of(&"red".to_string()), Some(0));
    assert_eq!(quiz.tally_of(&"blue".to_string()), Some(0));

    let voted = answer_quiz(&mut store, 1, "red".to_string(), 110).unwrap();
    assert_eq!(voted.tally_of(&"red".to_string()), Some(1));
    assert_eq!(voted.tally_of(&"blue".to_string()), Some(0));

    let refused = answer_quiz(&mut store, 1, "green".to_string(), 120).unwrap_err();
    assert!(matches!(refused, Error::InvalidChoice { .. }));
    let kept = get_quiz(&store, 1).unwrap();
    assert_eq!(kept, voted);
    assert_eq!(kept.answers, vec![1, 0]);

    let deleted = delete_quiz(&mut store, 1, &anyone()).unwrap();
    assert_eq!(deleted, voted);
    assert!(matches!(get_quiz(&store, 1), Err(Error::NotFound { .. })));
}

#[test]
fn created_ids_are_pairwise_distinct() {
    let mut store = fresh();
    let mut ids = Vec::new();
    for round in 0..20u64 {
        let quiz = create_quiz(&mut store, payload("Which one?", &["a", "b"]), None, round).unwrap();
        if round % 3 == 0 {
            delete_quiz(&mut store, quiz.id, &anyone()).unwrap();
        }
        ids.push(quiz.id);
    }
    for i in 0..ids.len() {
        for j in (i + 1)..ids.len() {
            assert_ne!(ids[i], ids[j]);
            assert!(ids[i] < ids[j]);
        }
    }
    assert_eq!(ids, (1..=20u64).collect::<Vec<u64>>());
}

#[test]
fn a_fresh_store_starts_the_counter_at_the_seed() {
    let mut store = fresh();
    assert_eq!(store.last_id(), 0);
    assert!(!store.contains(1));
    assert_eq!(next_id(&mut store).unwrap(), 1);
    assert_eq!(store.last_id(), 1);
    assert_eq!(next_id(&mut store).unwrap(), 2);
    assert_eq!(store.last_id(), 2);
}

#[test]
fn creation_zeroes_the_tally_and_leaves_no_update_time() {
    let mut store = fresh();
    let quiz = create_quiz(&mut store, payload("Tea or coffee?", &["tea", "coffee"]), None, 7).unwrap();
    assert_eq!(quiz.answers, vec![0, 0]);
    assert_eq!(quiz.created_at, 7);
    assert_eq!(quiz.updated_at, None);
    assert_eq!(quiz.author, None);
    assert_eq!(quiz.question, "Tea or coffee?");
    assert_eq!(get_quiz(&store, quiz.id).unwrap(), quiz);
}

#[test]
fn a_vote_adds_one_and_stamps_the_update() {
    let mut store = fresh();
    let quiz = create_quiz(&mut store, payload("Tea or coffee?", &["tea", "coffee"]), None, 50).unwrap();
    let voted = answer_quiz(&mut store, quiz.id, "tea".to_string(), 60).unwrap();
    assert_eq!(voted.answers, vec![1, 0]);
    assert_eq!(voted.updated_at, Some(60));
    assert!(voted.updated_at.unwrap() >= voted.created_at);
    let again = answer_quiz(&mut store, quiz.id, "coffee".to_string(), 61).unwrap();
    assert_eq!(again.answers, vec![1, 1]);
    let third = answer_quiz(&mut store, quiz.id, "tea".to_string(), 62).unwrap();
    assert_eq!(third.answers, vec![2, 1]);
    assert_eq!(get_quiz(&store, quiz.id).unwrap(), third);
}

#[test]
fn an_update_is_never_stamped_before_the_creation() {
    let mut store = fresh();
    let quiz = create_quiz(&mut store, payload("Tea or coffee?", &["tea", "coffee"]), None, 50).unwrap();
    let voted = answer_quiz(&mut store, quiz.id, "tea".to_string(), 10).unwrap();
    assert_eq!(voted.updated_at, Some(50));
    let edited =
        update_quiz(&mut store, quiz.id, payload("Cats or dogs?", &["cats", "dogs"]), &anyone(), 20)
            .unwrap();
    assert_eq!(edited.updated_at, Some(50));
}

#[test]
fn a_vote_for_an_unknown_label_changes_nothing() {
    let mut store = fresh();
    let quiz = create_quiz(&mut store, payload("Tea or coffee?", &["tea", "coffee"]), None, 50).unwrap();
    let err = answer_quiz(&mut store, quiz.id, "z".to_string(), 60).unwrap_err();
    assert_eq!(
        err,
        Error::InvalidChoice { msg: "The option 'z' is not found for this quiz.".to_string() }
    );
    assert_eq!(get_quiz(&store, quiz.id).unwrap(), quiz);
    let again = answer_quiz(&mut store, quiz.id, "z".to_string(), 61).unwrap_err();
    assert_eq!(again, err);
    assert_eq!(get_quiz(&store, quiz.id).unwrap(), quiz);
    assert_eq!(store.last_id(), quiz.id);
}

#[test]
fn a_vote_for_the_empty_label_is_refused() {
    let mut store = fresh();
    let quiz = create_quiz(&mut store, payload("Blank?", &["", "filled"]), None, 1).unwrap();
    let err = answer_quiz(&mut store, quiz.id, String::new(), 2).unwrap_err();
    assert!(matches!(err, Error::InvalidChoice { .. }));
    assert_eq!(get_quiz(&store, quiz.id).unwrap(), quiz);
}

#[test]
fn a_vote_on_a_missing_record_is_not_found() {
    let mut store = fresh();
    let err = answer_quiz(&mut store, 4, "tea".to_string(), 2).unwrap_err();
    assert_eq!(
        err,
        Error::NotFound { msg: "couldn't cast a quiz with id=4. quiz not found".to_string() }
    );
    assert_eq!(err, Error::vote_not_found(4));
    assert_eq!(get_all_quiz(&store), Err(Error::no_records()));
    assert_eq!(store.last_id(), 0);
}

#[test]
fn an_edit_resets_the_tally() {
    let mut store = fresh();
    let quiz = create_quiz(&mut store, payload("Tea or coffee?", &["tea", "coffee"]), None, 5).unwrap();
    answer_quiz(&mut store, quiz.id, "tea".to_string(), 6).unwrap();
    answer_quiz(&mut store, quiz.id, "tea".to_string(), 7).unwrap();
    answer_quiz(&mut store, quiz.id, "coffee".to_string(), 8).unwrap();
    let edited =
        update_quiz(&mut store, quiz.id, payload("Cats or dogs?", &["cats", "dogs", "both"]), &anyone(), 9)
            .unwrap();
    assert_eq!(edited.id, quiz.id);
    assert_eq!(edited.question, "Cats or dogs?");
    assert_eq!(edited.options, vec!["cats".to_string(), "dogs".to_string(), "both".to_string()]);
    assert_eq!(edited.answers, vec![0, 0, 0]);
    assert_eq!(edited.tally_of(&"cats".to_string()), Some(0));
    assert_eq!(edited.tally_of(&"tea".to_string()), None);
    assert_eq!(edited.created_at, 5);
    assert_eq!(edited.updated_at, Some(9));
    assert_eq!(get_quiz(&store, quiz.id).unwrap(), edited);
}

#[test]
fn an_edit_that_keeps_the_options_still_resets_the_tally() {
    let mut store = fresh();
    let quiz = create_quiz(&mut store, payload("Tea or coffee?", &["tea", "coffee"]), None, 5).unwrap();
    answer_quiz(&mut store, quiz.id, "tea".to_string(), 6).unwrap();
    let edited =
        update_quiz(&mut store, quiz.id, payload("Tea or coffee?", &["tea", "coffee"]), &anyone(), 9)
            .unwrap();
    assert_eq!(edited.answers, vec![0, 0]);
}

#[test]
fn a_deleted_id_is_gone_and_not_issued_again() {
    let mut store = fresh();
    let first = create_quiz(&mut store, payload("One?", &["a", "b"]), None, 1).unwrap();
    let second = create_quiz(&mut store, payload("Two?", &["a", "b"]), None, 2).unwrap();
    delete_quiz(&mut store, second.id, &anyone()).unwrap();
    assert_eq!(get_quiz(&store, second.id).unwrap_err(), Error::not_found(second.id));
    assert_eq!(_get_quiz(&store, &second.id), Ok(None));
    delete_quiz(&mut store, first.id, &anyone()).unwrap();
    for round in 0..10 {
        let quiz = create_quiz(&mut store, payload("More?", &["a", "b"]), None, round).unwrap();
        assert_ne!(quiz.id, first.id);
        assert_ne!(quiz.id, second.id);
    }
    assert_eq!(
        delete_quiz(&mut store, second.id, &anyone()),
        Err(Error::NotFound { msg: "couldn't delete a quiz with id=2. quiz not found.".to_string() })
    );
}

#[test]
fn listing_an_empty_store_reports_no_records() {
    let mut store = fresh();
    assert_eq!(
        get_all_quiz(&store),
        Err(Error::NotFound { msg: "There are currently no quiz".to_string() })
    );
    let quiz = create_quiz(&mut store, payload("One?", &["a", "b"]), None, 1).unwrap();
    assert_eq!(get_all_quiz(&store), Ok(vec![quiz.clone()]));
    delete_quiz(&mut store, quiz.id, &anyone()).unwrap();
    assert_eq!(get_all_quiz(&store), Err(Error::no_records()));
}

#[test]
fn listing_goes_by_ascending_id() {
    let mut store = fresh();
    let mut late = Quiz::new(40, None, payload("Late?", &["a", "b"]), 1);
    late.answers = vec![3, 4];
    do_insert(&mut store, &late).unwrap();
    let early = Quiz::new(7, None, payload("Early?", &["a", "b"]), 2);
    do_insert(&mut store, &early).unwrap();
    let issued = create_quiz(&mut store, payload("Issued?", &["a", "b"]), None, 3).unwrap();
    assert_eq!(issued.id, 1);
    let listed = get_all_quiz(&store).unwrap();
    assert_eq!(listed, vec![issued, early, late]);
    let again = get_all_quiz(&store).unwrap();
    assert_eq!(again, listed);
}

#[test]
fn the_allocator_skips_identifiers_in_use() {
    let mut store = fresh();
    for id in [1u64, 2, 3, 5] {
        do_insert(&mut store, &Quiz::new(id, None, payload("Taken?", &["a", "b"]), 1)).unwrap();
    }
    assert_eq!(store.last_id(), 0);
    let quiz = create_quiz(&mut store, payload("Next?", &["a", "b"]), None, 2).unwrap();
    assert_eq!(quiz.id, 4);
    assert_eq!(store.last_id(), 4);
    let quiz = create_quiz(&mut store, payload("Next?", &["a", "b"]), None, 3).unwrap();
    assert_eq!(quiz.id, 6);
    assert_eq!(next_id(&mut store), Ok(7));
    assert_eq!(get_all_quiz(&store).unwrap().len(), 6);
}

#[test]
fn insertion_overwrites_and_hands_back_what_was_there() {
    let mut store = fresh();
    let first = Quiz::new(9, None, payload("First?", &["a", "b"]), 1);
    assert_eq!(do_insert(&mut store, &first), Ok(None));
    assert!(store.contains(9));
    let second = Quiz::new(9, Some("ann".to_string()), payload("Second?", &["c", "d"]), 2);
    assert_eq!(do_insert(&mut store, &second), Ok(Some(first)));
    assert_eq!(_get_quiz(&store, &9), Ok(Some(second)));
    assert_eq!(store.last_id(), 0);
}

#[test]
fn insertion_refuses_a_record_that_breaks_the_invariant() {
    let mut store = fresh();
    let mut broken = Quiz::new(3, None, payload("Broken?", &["a", "b"]), 1);
    broken.answers = vec![0];
    assert_eq!(
        do_insert(&mut store, &broken),
        Err(Error::InvalidInput { msg: "Input validation failed".to_string() })
    );
    assert!(!store.contains(3));
    let mut early = Quiz::new(3, None, payload("Early?", &["a", "b"]), 10);
    early.updated_at = Some(9);
    assert!(matches!(do_insert(&mut store, &early), Err(Error::InvalidInput { .. })));
}

#[test]
fn creation_refuses_an_unacceptable_payload() {
    let mut store = fresh();
    for bad in [
        payload("One option?", &["only"]),
        payload("No option?", &[]),
        payload("Twice?", &["same", "same"]),
        payload("Twice among more?", &["a", "b", "a"]),
        payload("", &["a", "b"]),
    ] {
        assert!(!bad.is_valid());
        assert_eq!(create_quiz(&mut store, bad, None, 1), Err(Error::invalid_input()));
    }
    assert_eq!(store.last_id(), 0);
    assert_eq!(get_all_quiz(&store), Err(Error::no_records()));
}

#[test]
fn an_edit_refuses_an_unacceptable_payload() {
    let mut store = fresh();
    let quiz = create_quiz(&mut store, payload("Tea or coffee?", &["tea", "coffee"]), None, 5).unwrap();
    let err = update_quiz(&mut store, quiz.id, payload("Tea?", &["tea"]), &anyone(), 6).unwrap_err();
    assert!(matches!(err, Error::InvalidInput { .. }));
    assert_eq!(get_quiz(&store, quiz.id).unwrap(), quiz);
    let err = update_quiz(&mut store, 99, payload("Tea?", &["tea", "mate"]), &anyone(), 6).unwrap_err();
    assert_eq!(
        err,
        Error::NotFound { msg: "couldn't update a quiz with id=99. quiz not found".to_string() }
    );
    assert_eq!(err, Error::update_not_found(99));
    assert!(!store.contains(99));
    assert_eq!(store.last_id(), quiz.id);
}

#[test]
fn only_the_author_may_edit_or_delete() {
    let mut store = fresh();
    let alice = "alice".to_string();
    let bob = "bob".to_string();
    let quiz =
        create_quiz(&mut store, payload("Tea or coffee?", &["tea", "coffee"]), Some(alice.clone()), 5)
            .unwrap();
    assert_eq!(quiz.author, Some(alice.clone()));
    assert!(quiz.may_change(&alice));
    assert!(!quiz.may_change(&bob));
    let err = update_quiz(&mut store, quiz.id, payload("Mine now?", &["yes", "no"]), &bob, 6).unwrap_err();
    assert_eq!(err, Error::NotAuthorized { msg: "Not author of the quiz with id=1".to_string() });
    let err = delete_quiz(&mut store, quiz.id, &bob).unwrap_err();
    assert_eq!(err, Error::not_authorized(1));
    assert_eq!(get_quiz(&store, quiz.id).unwrap(), quiz);
    let voted = answer_quiz(&mut store, quiz.id, "tea".to_string(), 7).unwrap();
    assert_eq!(voted.answers, vec![1, 0]);
    let edited = update_quiz(&mut store, quiz.id, payload("Still mine?", &["yes", "no"]), &alice, 8).unwrap();
    assert_eq!(edited.author, Some(alice.clone()));
    assert_eq!(delete_quiz(&mut store, quiz.id, &alice), Ok(edited));
}

#[test]
fn a_record_too_large_to_store_is_a_storage_fault() {
    let mut store = fresh();
    let long = "q".repeat(2000);
    let err = create_quiz(&mut store, payload(&long, &["a", "b"]), None, 1).unwrap_err();
    assert_eq!(
        err,
        Error::StorageFault { msg: "the quiz with id=1 does not fit in a stored record".to_string() }
    );
    assert_eq!(store.last_id(), 1);
    assert!(!store.contains(1));
    let quiz = create_quiz(&mut store, payload("Short?", &["a", "b"]), None, 2).unwrap();
    assert_eq!(quiz.id, 2);
    let err = update_quiz(&mut store, 2, payload(&long, &["a", "b"]), &anyone(), 3).unwrap_err();
    assert_eq!(err, Error::oversize(2));
    assert_eq!(get_quiz(&store, 2).unwrap(), quiz);
}

#[test]
fn a_full_counter_takes_no_more_votes() {
    let mut store = fresh();
    let mut quiz = Quiz::new(1, None, payload("Full?", &["a", "b"]), 1);
    quiz.answers = vec![u32::MAX, u32::MAX - 1];
    do_insert(&mut store, &quiz).unwrap();
    let err = answer_quiz(&mut store, 1, "a".to_string(), 2).unwrap_err();
    assert_eq!(err, Error::StorageFault { msg: "the tally of option 'a' is full".to_string() });
    assert_eq!(get_quiz(&store, 1).unwrap(), quiz);
    let voted = answer_quiz(&mut store, 1, "b".to_string(), 3).unwrap();
    assert_eq!(voted.answers, vec![u32::MAX, u32::MAX]);
}

#[test]
fn a_failed_counter_write_is_an_allocation_fault() {
    assert_eq!(settle_allocation(12, true), Ok(12));
    assert_eq!(
        settle_allocation(12, false),
        Err(Error::AllocationFault { msg: "cannot increment id counter".to_string() })
    );
}

#[test]
fn peeking_does_not_issue() {
    let mut store = fresh();
    assert_eq!(peek_next_id(&store), Some(1));
    assert_eq!(peek_next_id(&store), Some(1));
    assert_eq!(store.last_id(), 0);
    do_insert(&mut store, &Quiz::new(1, None, payload("Taken?", &["a", "b"]), 1)).unwrap();
    assert_eq!(peek_next_id(&store), Some(2));
    assert_eq!(next_id(&mut store), Ok(2));
    assert_eq!(peek_next_id(&store), Some(3));
}

#[test]
fn a_scan_of_an_empty_store_is_empty() {
    let mut store = fresh();
    assert_eq!(scan_all(&store), Ok(vec![]));
    let quiz = create_quiz(&mut store, payload("One?", &["a", "b"]), None, 1).unwrap();
    assert_eq!(scan_all(&store), Ok(vec![quiz]));
}

#[test]
fn removal_hands_back_the_record() {
    let mut store = fresh();
    let quiz = create_quiz(&mut store, payload("One?", &["a", "b"]), Some("ann".to_string()), 1).unwrap();
    assert_eq!(remove(&mut store, 2), None);
    assert!(store.contains(1));
    assert_eq!(remove(&mut store, 1), Some(quiz));
    assert!(!store.contains(1));
    assert_eq!(remove(&mut store, 1), None);
    assert_eq!(store.last_id(), 1);
}

#[test]
fn a_read_hands_out_a_copy() {
    let mut store = fresh();
    let quiz = create_quiz(&mut store, payload("Tea or coffee?", &["tea", "coffee"]), None, 5).unwrap();
    let mut copy = get_quiz(&store, quiz.id).unwrap();
    copy.vote(&"tea".to_string(), 6).unwrap();
    copy.question = "Changed?".to_string();
    assert_eq!(get_quiz(&store, quiz.id).unwrap(), quiz);
    assert_eq!(do_insert(&mut store, &copy), Ok(Some(quiz)));
    assert_eq!(get_quiz(&store, copy.id).unwrap(), copy);
}

#[test]
fn successive_allocations_never_repeat() {
    let mut store = fresh();
    let mut last = store.last_id();
    for _ in 0..50 {
        let id = next_id(&mut store).unwrap();
        assert!(id > last);
        assert_eq!(store.last_id(), id);
        last = id;
    }
    assert_eq!(last, 50);
    assert_eq!(scan_all(&store), Ok(vec![]));
}

#[test]
fn the_layout_of_the_durable_memory() {
    assert_eq!(COUNTER_PARTITION, 0);
    assert_eq!(RECORDS_PARTITION, 1);
    assert_eq!(COUNTER_SEED, 0);
    let mut first = fresh();
    let mut second = fresh();
    create_quiz(&mut first, payload("Apart?", &["a", "b"]), None, 1).unwrap();
    assert_eq!(first.last_id(), 1);
    assert_eq!(second.last_id(), 0);
    assert_eq!(get_all_quiz(&second), Err(Error::no_records()));
    assert_eq!(next_id(&mut second), Ok(1));
}

#[test]
fn a_store_that_cannot_be_opened_is_an_allocation_fault() {
    match Store::assemble(None) {
        Err(e) => assert_eq!(e, Error::AllocationFault { msg: "Cannot create a counter".to_string() }),
        Ok(_) => panic!("nothing was opened"),
    }
}

#[test]
fn bytes_that_are_no_record_of_the_identifier_are_a_storage_fault() {
    let quiz = Quiz::new(5, None, payload("Five?", &["a", "b"]), 1);
    let bytes = quiz.to_bytes().unwrap();
    assert_eq!(read_stored(5, &bytes), Ok(quiz.clone()));
    assert_eq!(
        read_stored(6, &bytes),
        Err(Error::StorageFault { msg: "the stored quiz with id=6 cannot be read".to_string() })
    );
    assert_eq!(read_stored(5, &vec![1, 2, 3]), Err(Error::unreadable(5)));
    assert_eq!(read_stored(5, &Vec::new()), Err(Error::unreadable(5)));
    assert_eq!(admit_read(5, Some(quiz.clone())), Ok(quiz.clone()));
    assert_eq!(admit_read(4, Some(quiz)), Err(Error::unreadable(4)));
    assert_eq!(admit_read(4, None), Err(Error::unreadable(4)));
}

#[test]
fn an_edit_of_a_record_that_was_read() {
    let mut store = fresh();
    let ann = "ann".to_string();
    let quiz = create_quiz(&mut store, payload("Tea or coffee?", &["tea", "coffee"]), Some(ann.clone()), 5)
        .unwrap();
    let refused = apply_edit(&mut store, quiz.clone(), payload("Mine?", &["yes", "no"]), &anyone(), 6);
    assert_eq!(refused, Err(Error::not_authorized(quiz.id)));
    let refused = apply_edit(&mut store, quiz.clone(), payload("One?", &["yes"]), &ann, 6);
    assert_eq!(refused, Err(Error::invalid_input()));
    let refused = apply_edit(&mut store, quiz.clone(), payload(&"q".repeat(2000), &["yes", "no"]), &ann, 6);
    assert_eq!(refused, Err(Error::oversize(quiz.id)));
    assert_eq!(get_quiz(&store, quiz.id), Ok(quiz.clone()));
    let edited = apply_edit(&mut store, quiz.clone(), payload("Cats?", &["yes", "no"]), &ann, 6).unwrap();
    assert_eq!(edited.id, quiz.id);
    assert_eq!(edited.author, Some(ann));
    assert_eq!(edited.question, "Cats?");
    assert_eq!(edited.answers, vec![0, 0]);
    assert_eq!(edited.created_at, 5);
    assert_eq!(edited.updated_at, Some(6));
    assert_eq!(get_quiz(&store, quiz.id), Ok(edited));
}

#[test]
fn a_vote_in_a_record_that_was_read() {
    let mut store = fresh();
    let quiz = create_quiz(&mut store, payload("Tea or coffee?", &["tea", "coffee"]), None, 5).unwrap();
    let refused = apply_vote(&mut store, quiz.clone(), &"z".to_string(), 6);
    assert_eq!(refused, Err(Error::invalid_choice(&"z".to_string())));
    let refused = apply_vote(&mut store, quiz.clone(), &String::new(), 6);
    assert_eq!(refused, Err(Error::invalid_choice(&String::new())));
    let mut broken = quiz.clone();
    broken.answers = vec![0];
    assert_eq!(apply_vote(&mut store, broken, &"tea".to_string(), 6), Err(Error::invalid_input()));
    let mut full = quiz.clone();
    full.answers = vec![0, u32::MAX];
    assert_eq!(
        apply_vote(&mut store, full, &"coffee".to_string(), 6),
        Err(Error::full_tally(&"coffee".to_string()))
    );
    assert_eq!(get_quiz(&store, quiz.id), Ok(quiz.clone()));
    let voted = apply_vote(&mut store, quiz.clone(), &"coffee".to_string(), 6).unwrap();
    assert_eq!(voted.answers, vec![0, 1]);
    assert_eq!(voted.updated_at, Some(6));
    assert_eq!(get_quiz(&store, quiz.id), Ok(voted));
}

#[test]
fn a_vote_that_makes_the_record_too_large_is_refused() {
    let mut store = fresh();
    let mut size = 900;
    let mut quiz = Quiz::new(1, None, payload(&"q".repeat(size), &["a", "b"]), 5);
    while quiz.to_bytes().is_some() {
        size += 1;
        quiz = Quiz::new(1, None, payload(&"q".repeat(size), &["a", "b"]), 5);
    }
    let quiz = Quiz::new(1, None, payload(&"q".repeat(size - 1), &["a", "b"]), 5);
    assert_eq!(quiz.to_bytes().map(|bytes| bytes.len()), Some(1024));
    assert_eq!(do_insert(&mut store, &quiz), Ok(None));
    assert_eq!(answer_quiz(&mut store, 1, "a".to_string(), 6), Err(Error::oversize(1)));
    assert_eq!(get_quiz(&store, 1), Ok(quiz));
}

#[test]
fn a_deletion_of_a_record_that_was_read() {
    let mut store = fresh();
    let ann = "ann".to_string();
    let quiz = create_quiz(&mut store, payload("Tea or coffee?", &["tea", "coffee"]), Some(ann.clone()), 5)
        .unwrap();
    assert_eq!(apply_delete(&mut store, quiz.clone(), &anyone()), Err(Error::not_authorized(quiz.id)));
    assert!(store.contains(quiz.id));
    assert_eq!(apply_delete(&mut store, quiz.clone(), &ann), Ok(quiz.clone()));
    assert!(!store.contains(quiz.id));
    assert_eq!(get_quiz(&store, quiz.id), Err(Error::not_found(quiz.id)));
}
