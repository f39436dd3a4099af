use roktrack::speaker::{debug, error, info, warn};

#[test]
fn audio_test() {
    assert!(debug("start_mowing", "DEBUG"));
    assert!(!debug("start_mowing", "INFO"));
    assert!(info("start_mowing", "INFO"));
    assert!(!info("start_mowing", "WARNING"));
    assert!(warn("start_mowing", "WARN"));
    assert!(!warn("start_mowing", "ERROR"));
    assert!(error("start_mowing", "ERROR"));
    assert!(error("start_mowing", "DEBUG"));
}
