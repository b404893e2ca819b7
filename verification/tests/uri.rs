use full_service::uri::WalletServiceMirrorScheme;

#[test]
fn mirror_scheme_names_and_ports() {
    assert_eq!(WalletServiceMirrorScheme::SCHEME_SECURE, "mobilecoind-mirror");
    assert_eq!(WalletServiceMirrorScheme::SCHEME_INSECURE, "insecure-mobilecoind-mirror");
    assert_eq!(WalletServiceMirrorScheme::DEFAULT_SECURE_PORT, 10443);
    assert_eq!(WalletServiceMirrorScheme::DEFAULT_INSECURE_PORT, 10080);
    assert_eq!(WalletServiceMirrorScheme {}, WalletServiceMirrorScheme {}.clone());
}
