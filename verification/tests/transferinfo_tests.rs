use portal_lib::errors::PortalError;
use portal_lib::protocol::transferinfo::leaf_name;
use portal_lib::protocol::{TransferInfo, TransferInfoBuilder};

#[test]
fn transferinfo_strips_paths() {
    let info = TransferInfoBuilder::new()
        .add_file("/etc/passwd", 1234)
        .unwrap()
        .finalize();

    let ser = info.serialize();
    let other: TransferInfo = TransferInfo::parse(&ser).unwrap();

    // Assert localpaths are stripped
    assert!(other.localpaths.is_empty());

    // Metadata should be identical
    assert_eq!(info.all, other.all);

    // Metadata should not contain the folder "/etc"
    for file in info.all {
        assert!(!file.filename.contains("etc"));
    }
}

#[test]
fn transferinfo_add_bad_path() {
    let result = TransferInfoBuilder::new().add_file("/etc/..", 0);
    assert!(result.is_err());
    assert!(matches!(
        result.err().unwrap(),
        PortalError::BadFileName
    ));
}

#[test]
fn transferinfo_keeps_local_paths_for_the_sender() {
    let mut info = TransferInfo::empty();
    info.add_file("/tmp/dir/a.txt", 5).unwrap();
    assert_eq!(info.localpaths, vec!["/tmp/dir/a.txt".to_string()]);
    assert_eq!(info.all[0].filename, "a.txt");
    assert_eq!(info.all[0].filesize, 5);
}

#[test]
fn leaf_name_cases() {
    assert_eq!(leaf_name("/etc/passwd"), Some("passwd".to_string()));
    assert_eq!(leaf_name("passwd"), Some("passwd".to_string()));
    assert_eq!(leaf_name("a/b/"), Some("b".to_string()));
    assert_eq!(leaf_name("a//b//"), Some("b".to_string()));
    assert_eq!(leaf_name("a/."), Some("a".to_string()));
    assert_eq!(leaf_name("/etc/.."), None);
    assert_eq!(leaf_name(".."), None);
    assert_eq!(leaf_name("."), None);
    assert_eq!(leaf_name("/"), None);
    assert_eq!(leaf_name(""), None);
}
