use tokiactor::compose::{
    both, both_ok, first_err, forward_ok, forward_ok_first, forward_some, or_context, second_ok, Next,
    PairError,
};

#[test]
fn both_gives_a_pair_only_when_both_answer() {
    assert_eq!(both(Some(2), Some(10)), Some((2, 10)));
    assert_eq!(both(Some(2), None::<i32>), None);
    assert_eq!(both(None::<i32>, Some(10)), None);
    assert_eq!(both(None::<i32>, None::<i32>), None);
}

#[test]
fn both_ok_chains_errors() {
    match both_ok::<i32, i32, &str, &str>(Ok(2), Ok(1)) {
        Ok(p) => assert_eq!(p, (2, 1)),
        Err(_) => panic!("expected a pair"),
    }
    match both_ok::<i32, i32, &str, &str>(Err("e"), Ok(1)) {
        Err(PairError::First(e)) => assert_eq!(e, "e"),
        _ => panic!("expected the first error"),
    }
    match both_ok::<i32, i32, &str, &str>(Ok(2), Err("en")) {
        Err(PairError::Second(en)) => assert_eq!(en, "en"),
        _ => panic!("expected the second error"),
    }
    match both_ok::<i32, i32, &str, &str>(Err("e"), Err("en")) {
        Err(PairError::Both(c)) => {
            assert_eq!(c.0, "e");
            assert_eq!(c.1, "en");
        },
        _ => panic!("expected both errors"),
    }
}

#[test]
fn first_err_stops_at_the_first_error() {
    match first_err::<i32, i32, &str, &str>(Err("e"), Err("en")) {
        Err(PairError::First(e)) => assert_eq!(e, "e"),
        _ => panic!("expected the first error"),
    }
    match first_err::<i32, i32, &str, &str>(Ok(1), Err("en")) {
        Err(PairError::Second(en)) => assert_eq!(en, "en"),
        _ => panic!("expected the second error"),
    }
    match first_err::<i32, i32, &str, &str>(Ok(1), Ok(2)) {
        Ok(p) => assert_eq!(p, (1, 2)),
        Err(_) => panic!("expected a pair"),
    }
}

#[test]
fn option_chain_forwards_values_and_stops_at_none() {
    match forward_some::<i32, i32>(Some(3)) {
        Next::Forward(x) => assert_eq!(x, 3),
        Next::Done(_) => panic!("expected a forward"),
    }
    match forward_some::<i32, i32>(None) {
        Next::Done(d) => assert_eq!(d, None),
        Next::Forward(_) => panic!("expected the end"),
    }
}

#[test]
fn result_chain_forwards_values_and_stops_at_errors() {
    match forward_ok::<i32, i32, &str>(Ok(3)) {
        Next::Forward(x) => assert_eq!(x, 3),
        Next::Done(_) => panic!("expected a forward"),
    }
    match forward_ok::<i32, i32, &str>(Err("e")) {
        Next::Done(d) => assert_eq!(d, Err("e")),
        Next::Forward(_) => panic!("expected the end"),
    }
    match forward_ok_first::<i32, i32, &str, u8>(Err("e")) {
        Next::Done(Err(PairError::First(e))) => assert_eq!(e, "e"),
        _ => panic!("expected the first error"),
    }
    match forward_ok_first::<i32, i32, &str, u8>(Ok(5)) {
        Next::Forward(x) => assert_eq!(x, 5),
        _ => panic!("expected a forward"),
    }
    match second_ok::<i32, &str, u8>(Err(7)) {
        Err(PairError::Second(en)) => assert_eq!(en, 7),
        _ => panic!("expected the second error"),
    }
    match second_ok::<i32, &str, u8>(Ok(20)) {
        Ok(x) => assert_eq!(x, 20),
        _ => panic!("expected a value"),
    }
}

#[test]
fn or_context_turns_none_into_an_error() {
    assert_eq!(or_context(Some(2), "null error".to_string()).unwrap(), 2);
    let err = or_context::<i32>(None, "null error".to_string()).unwrap_err();
    assert_eq!(err.message, "null error");
}
