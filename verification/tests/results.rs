use study_core::results::{AdviserMode, GameResults};

#[test]
fn adviser_mode_numbers_round_trip() {
    assert_eq!(AdviserMode::LeastLimiting.to_num(), 0);
    assert_eq!(AdviserMode::NextMove.to_num(), 1);
    assert_eq!(AdviserMode::Off.to_num(), 2);
    assert_eq!(AdviserMode::from_num(0), AdviserMode::LeastLimiting);
    assert_eq!(AdviserMode::from_num(1), AdviserMode::NextMove);
    assert_eq!(AdviserMode::from_num(2), AdviserMode::Off);
}

#[test]
fn adviser_mode_names() {
    assert_eq!(AdviserMode::LeastLimiting.to_string(), "LeastLimiting");
    assert_eq!(AdviserMode::NextMove.to_string(), "NextMove");
    assert_eq!(AdviserMode::Off.to_string(), "None");
}

#[test]
fn results_to_json_writes_all_fields() {
    let results = GameResults {
        participant_id: 123456,
        adviser_mode: 1,
        steps_taken: 42,
        safety_violated: 3,
        human_burgers: 2,
        robot_burgers: 0,
    };
    assert_eq!(
        results.to_json(),
        "{\"participant_id\": 123456, \"adviser_mode\": 1, \"steps_taken\": 42, \"safety_violated\": 3, \"human_burgers\": 2, \"robot_burgers\": 0}"
    );
}

#[test]
fn results_to_json_writes_negative_and_extreme_numbers() {
    let results = GameResults {
        participant_id: i32::MIN,
        adviser_mode: 0,
        steps_taken: u32::MAX,
        safety_violated: 10,
        human_burgers: 100,
        robot_burgers: 1000,
    };
    assert_eq!(
        results.to_json(),
        format!(
            "{{\"participant_id\": {}, \"adviser_mode\": {}, \"steps_taken\": {}, \"safety_violated\": {}, \"human_burgers\": {}, \"robot_burgers\": {}}}",
            i32::MIN,
            0,
            u32::MAX,
            10,
            100,
            1000
        )
    );
}
