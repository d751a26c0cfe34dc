use cellsim::{ConfigError, IVec3, Neighborhood, Rule, Rules, MAX_NEIGHBORS};

#[test]
fn single_matches_only_its_count() {
    let r = Rule::Single(3);
    assert!(r.has_match(3));
    assert!(!r.has_match(2));
    assert!(!r.has_match(4));
}

#[test]
fn range_is_inclusive_at_both_ends() {
    let r = Rule::Range(2, 3);
    assert!(!r.has_match(1));
    assert!(r.has_match(2));
    assert!(r.has_match(3));
    assert!(!r.has_match(4));
}

#[test]
fn inverted_range_never_matches() {
    let r = Rule::Range(5, 2);
    for c in 0u8..=255 {
        assert!(!r.has_match(c));
    }
}

#[test]
fn empty_multi_never_matches() {
    let r = Rule::Multi(vec![]);
    for c in 0u8..=255 {
        assert!(!r.has_match(c));
    }
}

#[test]
fn multi_matches_when_any_rule_matches() {
    let r = Rule::Multi(vec![Rule::Range(6, 7), Rule::Range(12, 13), Rule::Single(15)]);
    let hits: Vec<u8> = (0u8..=30).filter(|c| r.has_match(*c)).collect();
    assert_eq!(hits, vec![6, 7, 12, 13, 15]);
}

#[test]
fn nested_multi_matches() {
    let r = Rule::Multi(vec![Rule::Single(1), Rule::Multi(vec![Rule::Single(4), Rule::Range(8, 9)])]);
    assert!(r.has_match(1));
    assert!(r.has_match(4));
    assert!(r.has_match(9));
    assert!(!r.has_match(5));
}

#[test]
fn has_match_is_deterministic() {
    let r = Rule::Multi(vec![Rule::Single(2), Rule::Range(6, 9)]);
    for c in 0u8..=20 {
        let first = r.has_match(c);
        for _ in 0..3 {
            assert_eq!(r.has_match(c), first);
        }
    }
}

fn assert_distinct(offsets: &[IVec3]) {
    for i in 0..offsets.len() {
        for j in 0..offsets.len() {
            if i != j {
                assert_ne!(offsets[i], offsets[j]);
            }
        }
    }
}

#[test]
fn canonical_neighborhoods_have_their_sizes() {
    assert_eq!(Neighborhood::moore_3d().len(), 26);
    assert_eq!(Neighborhood::moore_2d().len(), 8);
    assert_eq!(Neighborhood::von_neumann_3d().len(), 6);
    assert_eq!(Neighborhood::von_neumann_2d().len(), 4);
}

#[test]
fn moore_3d_is_every_surrounding_cell() {
    let n = Neighborhood::moore_3d();
    let offsets = n.offsets();
    assert_distinct(offsets);
    for o in offsets.iter() {
        assert!(o.x.abs() <= 1 && o.y.abs() <= 1 && o.z.abs() <= 1);
        assert!(*o != IVec3::new(0, 0, 0));
    }
}

#[test]
fn moore_2d_stays_in_the_plane() {
    let n = Neighborhood::moore_2d();
    assert_distinct(n.offsets());
    for o in n.offsets().iter() {
        assert_eq!(o.z, 0);
        assert!(o.x != 0 || o.y != 0);
    }
}

#[test]
fn von_neumann_offsets_are_axis_aligned() {
    for (n, planar) in [(Neighborhood::von_neumann_3d(), false), (Neighborhood::von_neumann_2d(), true)] {
        assert_distinct(n.offsets());
        for o in n.offsets().iter() {
            assert_eq!(o.x.abs() + o.y.abs() + o.z.abs(), 1);
            if planar {
                assert_eq!(o.z, 0);
            }
        }
    }
}

#[test]
fn offsets_are_stable_across_calls() {
    let n = Neighborhood::moore_3d();
    let a: Vec<IVec3> = n.offsets().clone();
    let b: Vec<IVec3> = n.offsets().clone();
    assert_eq!(a, b);
}

#[test]
fn custom_neighborhood_keeps_order() {
    let given = vec![IVec3::new(2, 0, 0), IVec3::new(0, -2, 0), IVec3::new(2, 0, 0)];
    let n = Neighborhood::custom(given.clone()).unwrap();
    assert_eq!(n.offsets(), &given);
}

#[test]
fn custom_neighborhood_refuses_zero_offset() {
    let r = Neighborhood::custom(vec![IVec3::new(1, 0, 0), IVec3::new(0, 0, 0)]);
    assert_eq!(r.unwrap_err(), ConfigError::ZeroOffset);
}

#[test]
fn custom_neighborhood_refuses_too_many_offsets() {
    let r = Neighborhood::custom(vec![IVec3::new(1, 0, 0); MAX_NEIGHBORS + 1]);
    assert_eq!(r.unwrap_err(), ConfigError::TooManyOffsets);
    assert!(Neighborhood::custom(vec![IVec3::new(1, 0, 0); MAX_NEIGHBORS]).is_ok());
}

#[test]
fn rule_set_needs_two_states() {
    let r = Rules::new(Rule::Single(2), Rule::Single(3), 1, Neighborhood::moore_2d());
    assert_eq!(r.unwrap_err(), ConfigError::TooFewStates);
    let ok = Rules::new(Rule::Single(2), Rule::Single(3), 2, Neighborhood::moore_2d()).unwrap();
    assert_eq!(ok.states, 2);
}

#[test]
fn game_of_life_rules() {
    let r = Rules::default();
    assert!(r.survival.has_match(2) && r.survival.has_match(3) && !r.survival.has_match(4));
    assert!(r.born.has_match(3) && !r.born.has_match(2));
    assert_eq!(r.states, 5);
    assert_eq!(r.neighborhood_matrix.len(), 8);
}
