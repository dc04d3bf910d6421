use riden_flash::registry::is_supported_model;

#[test]
fn all_registry_models_are_supported() {
    for m in [60062u16, 60065, 60066, 60121, 60125, 60181, 60241] {
        assert!(is_supported_model(m));
    }
}

#[test]
fn models_outside_the_registry_are_rejected() {
    for m in [0u16, 1, 12345, 60061, 60063, 60124, 60180, 60242, 65535] {
        assert!(!is_supported_model(m));
    }
}
