use tas_launcher::contexts::bizhawk::{version_for_digest, BizHawkContext};

const TABLE: [(&str, &str); 30] = [
    ("ef7c4067cec01b60b89ff8c271f3c72a0b2d009f", "2.9.1"),
    ("c9be7f8e4a05122e60545e8988920b710bd50ea7", "2.9"),
    ("31a2fadd049957377358a0b7b1267f3d8ecebfd9", "2.9-rc3"),
    ("a6ff6e02a05a0ec52695a7ec757aedcdc16e0192", "2.9-rc2"),
    ("288e310c430cbcbc0881913efd82e91f16dc14dd", "2.9-rc1"),
    ("88e476295d004a80ea514847c0d590879e7b3d88", "2.8"),
    ("9d2738265a37e28813eeff08e41def697f58cbee", "2.8-rc1"),
    ("eac6aa28589372d120e23e5b2f69b56c2542273b", "2.7"),
    ("3261214b9991918c5224d27b6cf7d84f9acd3566", "1.9.2"),
    ("202a0d945cd20a1b2e5021d3499ac7b5c2f5ca46", "1.6.1"),
    ("7dd9dce90e16138ca38ef92cdb1270a378d21dad", "2.6.3"),
    ("3668613ed1fc61f1dafde9b678e6a637da23d882", "2.6.2"),
    ("115cb73156b4a288378fd00aa0fd982fb0c311c5", "2.6.1"),
    ("307526d8171fa9aa2dfbf735aa1eca23425b829a", "2.6"),
    ("7bcc6337005dba33fbc8a454cf7f669563f39e85", "2.5.2"),
    ("410c423feef9666955b2a0d66c3b64c3e432988a", "2.5.1"),
    ("d45a7348a8e5505b294df9add852787d04b569e4", "2.5.0"),
    ("6e169792aebef5942c9fabd276c7d3e07e2c3196", "2.4.2"),
    ("71d9bd1ae6d60b6fc7d3aebe474eae50995c29d7", "2.4.1"),
    ("2668ef81bad2459a9a14a09a3a8d5ee2c6e9cbac", "2.4"),
    ("1fbf1b672ddb4e98aef77a8edd5655149b4b4c72", "2.3.3"),
    ("d9365fd6f1f979a52689979e5709b26dfef7dc09", "2.3.2"),
    ("c2f4b95b86a11c472f7e8522598be644e9e05c6d", "2.3.1"),
    ("b2072e0bdf4944d060c83f44df17e88da4007c81", "2.3"),
    ("ab83cfd3ed5b9dc392d2b0d4aa1b99723c5bf4c9", "1.13.2"),
    ("4c1599c7ed7e5216477454ac7fac0719f2ee6e66", "2.2.2"),
    ("6095cb07bd79703527c01ad4f27ed4e907d2f030", "2.2.1"),
    ("4e2ec35bff8798494d3cc0e22276f2456939257d", "2.2"),
    ("fc372a78d03ca5229f3c125a9dff91a779a66b7a", "2.1.1"),
    ("c2e31867428e03ba2ef23911d605163a7008d6a5", "2.1.0"),
];

#[test]
fn every_table_entry_maps_to_its_own_label() {
    for (digest, label) in TABLE {
        assert_eq!(version_for_digest(&digest.to_string()).as_deref(), Some(label));
    }
}

#[test]
fn table_labels_are_pairwise_distinct() {
    for (i, (_, a)) in TABLE.iter().enumerate() {
        for (_, b) in TABLE.iter().skip(i + 1) {
            assert_ne!(a, b);
        }
    }
}

#[test]
fn unknown_digest_maps_to_no_version() {
    assert_eq!(version_for_digest(&"0000000000000000000000000000000000000000".to_string()), None);
    assert_eq!(version_for_digest(&"".to_string()), None);
}

#[test]
fn detect_version_hashes_the_executable_bytes() {
    // No known build has these bytes, so detection reports no version.
    let bytes = b"not a real emulator build".to_vec();
    let digest = sha1_smol::Sha1::from(&bytes).digest().to_string();
    assert_eq!(version_for_digest(&digest), None);
    assert_eq!(BizHawkContext::detect_version(&bytes), None);
}

#[test]
fn detection_hashes_rather_than_reads_the_bytes() {
    // Bytes that spell out a fingerprint are not that fingerprint's build:
    // detection must hash them, not read them back.
    let bytes = b"eac6aa28589372d120e23e5b2f69b56c2542273b".to_vec();
    assert_eq!(BizHawkContext::detect_version(&bytes), None);
}

#[test]
fn detect_version_agrees_with_the_digest_lookup() {
    for bytes in [b"alpha".to_vec(), b"beta".to_vec(), Vec::new()] {
        let digest = sha1_smol::Sha1::from(&bytes).digest().to_string();
        assert_eq!(BizHawkContext::detect_version(&bytes), version_for_digest(&digest));
    }
}
