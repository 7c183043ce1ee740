use trying::early::Early;
use trying::warn_result::MaybeWarn;
use trying::warn_result::Result as TriResult;

#[test]
fn predicates_match_variants() {
    let ok: TriResult<u32, String, String> = TriResult::Success(1);
    assert!(ok.is_ok() && !ok.is_warn() && !ok.is_err());
    let warn: TriResult<u32, String, String> = TriResult::Warn(1, String::from("w"));
    assert!(!warn.is_ok() && warn.is_warn() && !warn.is_err());
    let err: TriResult<u32, String, String> = TriResult::Failure(String::from("e"));
    assert!(!err.is_ok() && !err.is_warn() && err.is_err());
}

#[test]
fn outcome_as_ref_keeps_structure() {
    let warn: TriResult<u32, String, String> = TriResult::Warn(1, String::from("w"));
    match warn.as_ref() {
        TriResult::Warn(val, w) => {
            assert_eq!(*val, 1);
            assert_eq!(w, "w");
        },
        _ => panic!("expected Warn"),
    }
}

#[test]
fn outcome_as_mut_writes_through() {
    let mut warn: TriResult<u32, u32, u32> = TriResult::Warn(1, 2);
    match warn.as_mut() {
        TriResult::Warn(val, w) => {
            *val = 10;
            *w = 20;
        },
        _ => panic!("expected Warn"),
    }
    assert_eq!(warn, TriResult::Warn(10, 20));
}

#[test]
fn map_applies_to_carrier_and_rewraps() {
    let warn: TriResult<u32, String, String> = TriResult::Warn(3, String::from("w"));
    let mapped = warn.map(|m| m.map(|v| v + 1));
    assert_eq!(mapped, TriResult::Warn(4, String::from("w")));
    let err: TriResult<u32, String, String> = TriResult::Failure(String::from("e"));
    let mapped = err.map(|m| m.map(|v| v + 1));
    assert_eq!(mapped, TriResult::Failure(String::from("e")));
}

#[test]
fn map_val_keeps_severity() {
    let ok: TriResult<u32, String, String> = TriResult::Success(2);
    assert_eq!(ok.map_val(|v| v * 3), TriResult::Success(6));
    let warn: TriResult<u32, String, String> = TriResult::Warn(2, String::from("w"));
    assert_eq!(warn.map_val(|v| v * 3), TriResult::Warn(6, String::from("w")));
    let err: TriResult<u32, String, String> = TriResult::Failure(String::from("e"));
    assert_eq!(err.map_val(|v| v * 3), TriResult::Failure(String::from("e")));
}

#[test]
fn map_warn_touches_only_the_diagnostic() {
    let warn: TriResult<u32, String, String> = TriResult::Warn(2, String::from("w"));
    assert_eq!(
        warn.map_warn(|w| format!("[{w}]")),
        TriResult::Warn(2, String::from("[w]"))
    );
    let ok: TriResult<u32, String, String> = TriResult::Success(2);
    assert_eq!(ok.map_warn(|w| format!("[{w}]")), TriResult::Success(2));
}

#[test]
fn map_err_touches_only_the_error() {
    let err: TriResult<u32, String, String> = TriResult::Failure(String::from("e"));
    assert_eq!(
        err.map_err(|e| format!("[{e}]")),
        TriResult::Failure(String::from("[e]"))
    );
    let warn: TriResult<u32, String, String> = TriResult::Warn(2, String::from("w"));
    assert_eq!(
        warn.map_err(|e| format!("[{e}]")),
        TriResult::Warn(2, String::from("w"))
    );
}

#[test]
fn and_then_chains_and_short_circuits() {
    let warn: TriResult<u32, String, String> = TriResult::Warn(2, String::from("w"));
    let chained = warn.and_then(|m| {
        let (carried, diag) = match m {
            MaybeWarn::Success(v) => (v, None),
            MaybeWarn::Warn(v, w) => (v, Some(w)),
        };
        assert_eq!(carried, 2);
        assert_eq!(diag.as_deref(), Some("w"));
        TriResult::Success(carried + 1)
    });
    assert_eq!(chained, TriResult::Success(3));

    let err: TriResult<u32, String, String> = TriResult::Failure(String::from("e"));
    let chained = err.and_then(|_| -> TriResult<u32, String, String> {
        panic!("must not be invoked on a failure")
    });
    assert_eq!(chained, TriResult::Failure(String::from("e")));
}

#[test]
fn or_else_recovers_only_failures() {
    let err: TriResult<u32, String, String> = TriResult::Failure(String::from("e"));
    let recovered = err.or_else(|e| TriResult::<u32, String, String>::Warn(0, e));
    assert_eq!(recovered, TriResult::Warn(0, String::from("e")));

    let warn: TriResult<u32, String, String> = TriResult::Warn(2, String::from("w"));
    let kept = warn.or_else(|_| -> TriResult<u32, String, String> {
        panic!("must not be invoked without a failure")
    });
    assert_eq!(kept, TriResult::Warn(2, String::from("w")));
}

#[test]
fn copied_and_cloned_from_shared_references() {
    let value: u32 = 8;
    let warn_text = String::from("w");
    let r: TriResult<&u32, String, &String> = TriResult::Warn(&value, &warn_text);
    let copied = r.copied();
    assert!(matches!(copied, TriResult::Warn(8, _)));
    let r: TriResult<&u32, String, &String> = TriResult::Success(&value);
    assert!(matches!(r.cloned(), TriResult::Success(8)));
}

#[test]
fn copied_and_cloned_from_mutable_references() {
    let mut value: u32 = 8;
    let r: TriResult<&mut u32, String, String> = TriResult::Success(&mut value);
    assert!(matches!(r.copied(), TriResult::Success(8)));
    let mut value2: u32 = 9;
    let r: TriResult<&mut u32, String, String> = TriResult::Success(&mut value2);
    assert!(matches!(r.cloned(), TriResult::Success(9)));
}

#[test]
fn transpose_lossy_present_values() {
    let r: TriResult<Option<u32>, String, String> = TriResult::Success(Some(1));
    assert_eq!(r.transpose_lossy(), Some(TriResult::Success(1)));
    let r: TriResult<Option<u32>, String, String> = TriResult::Warn(Some(2), String::from("w"));
    assert_eq!(
        r.transpose_lossy(),
        Some(TriResult::Warn(2, String::from("w")))
    );
    let r: TriResult<Option<u32>, String, String> = TriResult::Failure(String::from("e"));
    assert_eq!(r.transpose_lossy(), Some(TriResult::Failure(String::from("e"))));
}

#[test]
fn transpose_lossy_drops_diagnostic_of_absent_value() {
    let r: TriResult<Option<u32>, String, String> = TriResult::Success(None);
    assert_eq!(r.transpose_lossy(), None);
    // The specified lossy case: a warning on an absent value collapses to
    // "absent" and its diagnostic is no longer retrievable.
    let r: TriResult<Option<u32>, String, String> = TriResult::Warn(None, String::from("w"));
    assert_eq!(r.transpose_lossy(), None);
}

#[test]
fn flatten_inner_prefers_inner_diagnostic() {
    let nested: TriResult<TriResult<u32, String, String>, String, String> = TriResult::Warn(
        TriResult::Warn(1, String::from("inner")),
        String::from("outer"),
    );
    assert_eq!(
        nested.flatten_inner(),
        TriResult::Warn(1, String::from("inner"))
    );
}

#[test]
fn flatten_outer_prefers_outer_diagnostic() {
    let nested: TriResult<TriResult<u32, String, String>, String, String> = TriResult::Warn(
        TriResult::Warn(1, String::from("inner")),
        String::from("outer"),
    );
    assert_eq!(
        nested.flatten_outer(),
        TriResult::Warn(1, String::from("outer"))
    );
}

#[test]
fn flatten_severity_dominance() {
    // A failure on either level dominates any warning.
    let nested: TriResult<TriResult<u32, String, String>, String, String> = TriResult::Warn(
        TriResult::Failure(String::from("e")),
        String::from("outer"),
    );
    assert_eq!(nested.flatten_inner(), TriResult::Failure(String::from("e")));
    let nested: TriResult<TriResult<u32, String, String>, String, String> =
        TriResult::Failure(String::from("e"));
    assert_eq!(nested.flatten_outer(), TriResult::Failure(String::from("e")));
    // A warning on one level alone still warns.
    let nested: TriResult<TriResult<u32, String, String>, String, String> =
        TriResult::Success(TriResult::Warn(1, String::from("w")));
    assert_eq!(nested.flatten_inner(), TriResult::Warn(1, String::from("w")));
    assert_eq!(
        TriResult::<TriResult<u32, String, String>, String, String>::Success(
            TriResult::Success(1)
        )
        .flatten_outer(),
        TriResult::Success(1)
    );
}

#[test]
fn branch_splits_failure_from_continuation() {
    let err: TriResult<u32, String, String> = TriResult::Failure(String::from("e"));
    match err.branch() {
        Early::Done(e) => assert_eq!(e, "e"),
        Early::Todo(_) => panic!("a failure must be the residual"),
    }
    let warn: TriResult<u32, String, String> = TriResult::Warn(1, String::from("w"));
    match warn.branch() {
        Early::Todo(MaybeWarn::Warn(val, w)) => {
            assert_eq!(val, 1);
            assert_eq!(w, "w");
        },
        _ => panic!("a warning must continue, with its diagnostic carried"),
    }
}

#[test]
fn lifts_preserve_their_side() {
    let m: MaybeWarn<u32, String> = MaybeWarn::Warn(1, String::from("w"));
    assert_eq!(
        TriResult::<u32, String, String>::from_carrier(m),
        TriResult::Warn(1, String::from("w"))
    );
    let ok: Result<u32, String> = Ok(4);
    assert_eq!(
        TriResult::<u32, String, String>::from_binary(ok),
        TriResult::Success(4)
    );
    let err: Result<u32, String> = Err(String::from("e"));
    assert_eq!(
        TriResult::<u32, String, String>::from_binary(err),
        TriResult::Failure(String::from("e"))
    );
    assert_eq!(
        TriResult::<u32, String, String>::from_error(String::from("e")),
        TriResult::Failure(String::from("e"))
    );
}

#[test]
fn binary_round_trip_through_lift_and_narrow() {
    // A binary result lifted into the tri-state outcome and immediately
    // narrowed back — warnings discarded, then the binary conversion —
    // reproduces the original value or error.
    let original: Result<u32, String> = Ok(4);
    let narrowed: Result<u32, String> =
        match TriResult::<u32, String, String>::from_binary(original.clone()).branch() {
            Early::Done(err) => Err(err),
            Early::Todo(m) => Ok(m.discard_warnings()),
        };
    assert_eq!(narrowed, original);

    let original: Result<u32, String> = Err(String::from("boom"));
    let narrowed: Result<u32, String> =
        match TriResult::<u32, String, String>::from_binary(original.clone()).branch() {
            Early::Done(err) => Err(err),
            Early::Todo(m) => Ok(m.discard_warnings()),
        };
    assert_eq!(narrowed, original);
}
