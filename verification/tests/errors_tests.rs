use ore_miner::errors::OreMinerError;

#[test]
fn equality_compares_variant_and_payload() {
    assert_eq!(
        OreMinerError::Daemon(String::from("x")),
        OreMinerError::Daemon(String::from("x"))
    );
    assert_ne!(
        OreMinerError::Daemon(String::from("x")),
        OreMinerError::Daemon(String::from("y"))
    );
    assert_ne!(
        OreMinerError::Daemon(String::from("x")),
        OreMinerError::CloudWatch(String::from("x"))
    );
    assert_eq!(
        OreMinerError::BinaryNotFound(String::from("ore"), String::from("missing")),
        OreMinerError::BinaryNotFound(String::from("ore"), String::from("missing"))
    );
    assert_ne!(
        OreMinerError::BinaryNotFound(String::from("ore"), String::from("missing")),
        OreMinerError::BinaryNotFound(String::from("ore"), String::from("denied"))
    );
    assert_eq!(
        OreMinerError::Io(String::from("pipe closed")).clone(),
        OreMinerError::Io(String::from("pipe closed"))
    );
}
