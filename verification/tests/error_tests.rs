use rmm_curves::error::ModelError;

#[test]
fn each_error_has_its_own_message() {
    let all = [
        ModelError::InvalidParameter,
        ModelError::DegenerateInput,
        ModelError::UnsetObjective,
    ];
    for (i, a) in all.iter().enumerate() {
        assert!(!a.message().is_empty());
        for (j, b) in all.iter().enumerate() {
            assert_eq!(a == b, i == j);
            assert_eq!(a.message() == b.message(), i == j);
        }
    }
}

#[test]
fn messages_read_as_written() {
    assert_eq!(ModelError::InvalidParameter.message(), "model parameter outside its domain");
    assert_eq!(ModelError::DegenerateInput.message(), "curve is singular at this input");
    assert_eq!(ModelError::UnsetObjective.message(), "no objective has been set");
}
