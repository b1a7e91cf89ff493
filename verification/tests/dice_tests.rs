use swampqueen_core::dice::parse_roll_many_str;
use swampqueen_core::dice::roll_die;
use swampqueen_core::dice::roll_many;
use swampqueen_core::dice::roll_many_from_str;
use swampqueen_core::dice::ParseError;
use swampqueen_core::dice::RollManyRequest;
use swampqueen_core::dice::RolledDiceResults;

const NUM_TEST_TRIALS: usize = 10000;

fn assert_range(num_faces: usize, result: usize) {
    assert!((1..=num_faces).contains(&result));
}

#[test]
fn roll_1_d0() {
    assert_eq!(roll_die(0), 0);
}

#[test]
fn roll_1_d6() {
    let num_faces = 6;
    for _ in 0..NUM_TEST_TRIALS {
        assert_range(num_faces, roll_die(num_faces));
    }
}

#[test]
fn roll_1_d20() {
    let num_faces = 20;
    for _ in 0..NUM_TEST_TRIALS {
        assert_range(num_faces, roll_die(num_faces));
    }
}

#[test]
fn parse_valid_roll_many_strs() {
    let assert_valid = |in_str: &str, exp_ndice: usize, exp_nfaces: usize| {
        assert_eq!(
            parse_roll_many_str(in_str).unwrap(),
            RollManyRequest {
                num_dice: exp_ndice,
                num_faces: exp_nfaces,
            }
        );
    };

    assert_valid("1d6", 1, 6);
    assert_valid("5d20", 5, 20);
    assert_valid("0d0", 0, 0);
    assert_valid("999d999", 999, 999);
}

#[test]
fn parse_invalid_roll_many_strs() {
    let assert_invalid = |in_str: &str| {
        let _ = parse_roll_many_str(in_str).unwrap_err();
    };

    assert_invalid("1D7");
    assert_invalid("1 d6");
    assert_invalid("oned6");
    assert_invalid("-1d6");
    assert_invalid("1.0d6");
    assert_invalid("999d 8");
    assert_invalid("1d325A");
    assert_invalid("1");
}

#[test]
fn parse_accepts_leading_zeros() {
    assert_eq!(
        parse_roll_many_str("007d010").unwrap(),
        RollManyRequest {
            num_dice: 7,
            num_faces: 10,
        }
    );
}

#[test]
fn parse_rejects_oversized_values() {
    // Twenty-five digits cannot fit the host's integer width.
    assert_eq!(
        parse_roll_many_str("9999999999999999999999999d6").unwrap_err(),
        ParseError
    );
    assert_eq!(
        parse_roll_many_str("1d9999999999999999999999999").unwrap_err(),
        ParseError
    );
}

#[test]
fn roll_many_d20s() {
    let num_dice = NUM_TEST_TRIALS;
    let num_faces = 20;
    let req = RollManyRequest {
        num_dice,
        num_faces,
    };

    let results = roll_many(req);
    assert_eq!(results.len(), num_dice);
    for result in results {
        assert!((1..=num_faces).contains(&result));
    }
}

#[test]
fn roll_single() {
    let num_dice = 1;
    let num_faces = 6;
    let req = RollManyRequest {
        num_dice,
        num_faces,
    };

    let results = roll_many(req);
    assert_eq!(results.len(), 1);
    assert!((1..=num_faces).contains(&results[0]));
}

#[test]
fn roll_none() {
    let num_dice = 0;
    let num_faces = 123_456;
    let req = RollManyRequest {
        num_dice,
        num_faces,
    };

    let results = roll_many(req);
    assert!(results.is_empty());
}

#[test]
fn roll_many_d20s_from_str() {
    let in_str = "42d20";
    let num_dice = 42;
    let num_faces = 20;
    let exp_req = RollManyRequest {
        num_dice,
        num_faces,
    };
    let result = roll_many_from_str(in_str).unwrap();
    assert_eq!(exp_req, result.request);
    assert_eq!(result.results.len(), num_dice);
    for roll in result.results {
        assert!((1..=num_faces).contains(&roll));
    }
}

#[test]
fn roll_from_str_propagates_parse_error() {
    assert_eq!(roll_many_from_str("junk").unwrap_err(), ParseError);
    assert_eq!(roll_many_from_str("2d6 ").unwrap_err(), ParseError);
}

#[test]
fn roll_zero_faced_dice() {
    let req = RollManyRequest {
        num_dice: 3,
        num_faces: 0,
    };
    let results = roll_many(req);
    assert_eq!(results, vec![0, 0, 0]);
}

#[test]
fn render_no_outcomes() {
    let rolled = RolledDiceResults {
        request: RollManyRequest {
            num_dice: 0,
            num_faces: 17,
        },
        results: vec![],
    };
    assert_eq!(rolled.render(), "0");
}

#[test]
fn render_one_outcome() {
    let rolled = RolledDiceResults {
        request: RollManyRequest {
            num_dice: 1,
            num_faces: 6,
        },
        results: vec![4],
    };
    assert_eq!(rolled.render(), "4");
}

#[test]
fn render_many_outcomes() {
    let rolled = RolledDiceResults {
        request: RollManyRequest {
            num_dice: 3,
            num_faces: 6,
        },
        results: vec![2, 5, 6],
    };
    assert_eq!(rolled.render(), "2+5+6=13");
}

#[test]
fn render_multi_digit_outcomes() {
    let rolled = RolledDiceResults {
        request: RollManyRequest {
            num_dice: 2,
            num_faces: 20,
        },
        results: vec![20, 100],
    };
    assert_eq!(rolled.render(), "20+100=120");

    let single = RolledDiceResults {
        request: RollManyRequest {
            num_dice: 1,
            num_faces: 0,
        },
        results: vec![0],
    };
    assert_eq!(single.render(), "0");
}

#[test]
fn default_request_is_empty() {
    let req = RollManyRequest::default();
    assert_eq!(
        req,
        RollManyRequest {
            num_dice: 0,
            num_faces: 0,
        }
    );
    let rolled = RolledDiceResults::default();
    assert_eq!(rolled.request, req);
    assert!(rolled.results.is_empty());
}
