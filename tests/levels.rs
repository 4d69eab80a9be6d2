use ferristatus::utils::{find_current_level, level_template, sort_levels};

fn ladder(rungs: &[(i32, &str)]) -> Vec<(i32, String)> {
    rungs.iter().map(|(c, t)| (*c, t.to_string())).collect()
}

#[test]
fn ladder_scenario_low_mid_high() {
    let l = ladder(&[(10, "low"), (50, "mid"), (100, "high")]);
    let d = "default".to_string();
    assert_eq!(level_template(&l, 10, &d), "low");
    assert_eq!(level_template(&l, 11, &d), "mid");
    assert_eq!(level_template(&l, 100, &d), "high");
    assert_eq!(level_template(&l, 101, &d), "default");
}

#[test]
fn ladder_ceiling_is_inclusive() {
    let l = ladder(&[(10, "low"), (50, "mid")]);
    assert_eq!(find_current_level(&l, 50), Some("mid".to_string()));
    assert_eq!(find_current_level(&l, 49), Some("mid".to_string()));
    assert_eq!(find_current_level(&l, 10), Some("low".to_string()));
}

#[test]
fn ladder_falls_back_when_nothing_reaches() {
    let l = ladder(&[(10, "low")]);
    assert_eq!(find_current_level(&l, 11), None);
    assert_eq!(level_template(&l, 11, &"d".to_string()), "d");
    assert_eq!(level_template(&Vec::new(), 0, &"d".to_string()), "d");
}

#[test]
fn sort_levels_orders_by_ceiling_and_keeps_ties() {
    let mut l = Some(ladder(&[(100, "high"), (10, "low"), (50, "a"), (50, "b")]));
    sort_levels(&mut l);
    assert_eq!(l, Some(ladder(&[(10, "low"), (50, "a"), (50, "b"), (100, "high")])));
    let mut none: Option<Vec<(i32, String)>> = None;
    sort_levels(&mut none);
    assert_eq!(none, None);
}

#[test]
fn selection_ignores_declaration_order() {
    let d = "default".to_string();
    let mut a = Some(ladder(&[(100, "high"), (10, "low"), (50, "mid")]));
    let mut b = Some(ladder(&[(50, "mid"), (100, "high"), (10, "low")]));
    sort_levels(&mut a);
    sort_levels(&mut b);
    for v in [-5, 0, 10, 11, 50, 51, 100, 101] {
        assert_eq!(
            level_template(a.as_ref().unwrap(), v, &d),
            level_template(b.as_ref().unwrap(), v, &d)
        );
    }
    assert_eq!(level_template(a.as_ref().unwrap(), 30, &d), "mid");
}

#[test]
fn tied_ceilings_pick_first_declared() {
    let mut l = Some(ladder(&[(50, "b"), (10, "x"), (50, "a")]));
    sort_levels(&mut l);
    let d = "d".to_string();
    assert_eq!(level_template(l.as_ref().unwrap(), 20, &d), "b");
    assert_eq!(level_template(l.as_ref().unwrap(), 50, &d), "b");
    assert_eq!(level_template(l.as_ref().unwrap(), 5, &d), "x");
}

#[test]
fn selection_sorts_an_unsorted_ladder() {
    let l = ladder(&[(100, "high"), (10, "low")]);
    let d = "d".to_string();
    assert_eq!(find_current_level(&l, 5), Some("low".to_string()));
    assert_eq!(find_current_level(&l, 10), Some("low".to_string()));
    assert_eq!(find_current_level(&l, 11), Some("high".to_string()));
    assert_eq!(find_current_level(&l, 101), None);
    assert_eq!(level_template(&l, 5, &d), "low");
    let tied = ladder(&[(50, "b"), (10, "x"), (50, "a")]);
    assert_eq!(level_template(&tied, 20, &d), "b");
    assert_eq!(level_template(&tied, 50, &d), "b");
}
