use photometry::belief::Periodicity;

#[test]
fn flags_map_to_beliefs_and_back() {
    for flag in [None, Some(false), Some(true)] {
        assert_eq!(Periodicity::from_flag(flag).to_flag(), flag);
    }
    assert_eq!(Periodicity::from_flag(None), Periodicity::Unknown);
    assert_eq!(Periodicity::from_flag(Some(false)), Periodicity::Aperiodic);
    assert_eq!(Periodicity::from_flag(Some(true)), Periodicity::Periodic);
}

#[test]
fn detection_makes_any_belief_periodic() {
    assert_eq!(Periodicity::Unknown.after_search(true), Periodicity::Periodic);
    assert_eq!(Periodicity::Aperiodic.after_search(true), Periodicity::Periodic);
    assert_eq!(Periodicity::Periodic.after_search(true), Periodicity::Periodic);
}

#[test]
fn no_detection_makes_unknown_aperiodic_and_keeps_periodic() {
    assert_eq!(Periodicity::Unknown.after_search(false), Periodicity::Aperiodic);
    assert_eq!(Periodicity::Aperiodic.after_search(false), Periodicity::Aperiodic);
    assert_eq!(Periodicity::Periodic.after_search(false), Periodicity::Periodic);
}

#[test]
fn setting_a_period_marks_periodic_and_clearing_forgets() {
    assert_eq!(Periodicity::flag_after_set_period(true), Some(true));
    assert_eq!(Periodicity::flag_after_set_period(false), None);
}
