use fileflex::ErrorClass;
use fileflex::ErrorPolicy;
use fileflex::FailureAction;
use fileflex::FileFlex;
use fileflex::FileFlexAsync;
use fileflex::FsModel;
use fileflex::OpenMode;
use fileflex::OpenRequest;
use fileflex::failure_action;

#[test]
fn test_file_flex() {
    let mut fs = FsModel::new();

    let f = fs.try_open(&"hello.txt".try_truncatable()).unwrap();
    fs.write(&f, &b"world".to_vec());

    let f = fs.try_open(&"hello.txt".try_appendable()).unwrap();
    fs.write(&f, &b"world".to_vec());

    let f = fs.try_open(&"hello.txt".try_readable()).unwrap();
    let s = fs.read(&f);
    assert_eq!(s, b"worldworld".to_vec());
}

#[test]
fn flag_table() {
    let c = OpenMode::Truncatable.config();
    assert!(!c.read && c.write && !c.append && c.truncate && c.create);
    let c = OpenMode::Appendable.config();
    assert!(!c.read && c.write && c.append && !c.truncate && c.create);
    let c = OpenMode::Readable.config();
    assert!(c.read && !c.write && !c.append && !c.truncate && !c.create);
}

#[test]
fn requests_carry_path_mode_and_policy() {
    let r = "x".truncatable();
    assert_eq!(r.path, "x");
    assert_eq!(r.mode, OpenMode::Truncatable);
    assert_eq!(r.policy, ErrorPolicy::FailFast);

    let r = "x".try_truncatable();
    assert_eq!(r.mode, OpenMode::Truncatable);
    assert_eq!(r.policy, ErrorPolicy::Recover);

    let r = "x".appendable();
    assert_eq!(r.mode, OpenMode::Appendable);
    assert_eq!(r.policy, ErrorPolicy::FailFast);

    let r = "x".try_appendable();
    assert_eq!(r.mode, OpenMode::Appendable);
    assert_eq!(r.policy, ErrorPolicy::Recover);

    let r = "x".readable();
    assert_eq!(r.mode, OpenMode::Readable);
    assert_eq!(r.policy, ErrorPolicy::FailFast);

    let r = "x".try_readable();
    assert_eq!(r.mode, OpenMode::Readable);
    assert_eq!(r.policy, ErrorPolicy::Recover);
}

#[test]
fn path_like_inputs_build_the_same_request() {
    let owned = String::from("p.txt");
    let borrowed: &str = "p.txt";
    let r1 = owned.try_truncatable();
    let r2 = borrowed.try_truncatable();
    let r3 = <&String as FileFlex>::try_truncatable(&&owned);
    let r4 = <&&str as FileFlex>::try_truncatable(&&borrowed);
    assert_eq!(r1.path, r2.path);
    assert_eq!(r1.path, r3.path);
    assert_eq!(r1.path, r4.path);
    assert_eq!(r1.mode, r2.mode);
    assert_eq!(r1.policy, r2.policy);
}

#[test]
fn try_truncatable_creates_missing_file() {
    let mut fs = FsModel::new();
    let path = String::from("fresh.txt");
    let r = fs.try_open(&path.try_truncatable());
    assert!(r.is_ok());
    assert!(fs.contains(&path));
    let f = fs.try_open(&path.try_readable()).unwrap();
    assert_eq!(fs.read(&f), Vec::<u8>::new());
}

#[test]
fn truncatable_discards_existing_contents() {
    let mut fs = FsModel::new();
    let path = String::from("old.txt");
    let f = fs.try_open(&path.try_truncatable()).unwrap();
    fs.write(&f, &b"stale".to_vec());
    let _ = fs.try_open(&path.try_truncatable()).unwrap();
    let f = fs.try_open(&path.try_readable()).unwrap();
    assert_eq!(fs.read(&f), Vec::<u8>::new());
}

#[test]
fn try_readable_missing_file_is_not_found() {
    let mut fs = FsModel::new();
    let path = String::from("absent.txt");
    let r = fs.try_open(&path.try_readable());
    assert_eq!(r.unwrap_err(), ErrorClass::NotFound);
    assert!(!fs.contains(&path));
}

#[test]
fn try_appendable_twice_concatenates_in_order() {
    let mut fs = FsModel::new();
    let path = String::from("log.txt");
    let f = fs.try_open(&path.try_appendable()).unwrap();
    fs.write(&f, &b"ab".to_vec());
    let f = fs.try_open(&path.try_appendable()).unwrap();
    fs.write(&f, &b"cd".to_vec());
    let f = fs.try_open(&path.try_readable()).unwrap();
    assert_eq!(fs.read(&f), b"abcd".to_vec());
}

#[test]
fn appendable_keeps_existing_contents() {
    let mut fs = FsModel::new();
    let path = String::from("keep.txt");
    let f = fs.try_open(&path.try_truncatable()).unwrap();
    fs.write(&f, &b"head".to_vec());
    let f = fs.try_open(&path.try_appendable()).unwrap();
    fs.write(&f, &b"tail".to_vec());
    let f = fs.try_open(&path.try_readable()).unwrap();
    assert_eq!(fs.read(&f), b"headtail".to_vec());
}

#[test]
fn recoverable_policy_always_returns_the_error() {
    let modes = [OpenMode::Truncatable, OpenMode::Appendable, OpenMode::Readable];
    let classes = [ErrorClass::NotFound, ErrorClass::Other];
    for mode in modes {
        for class in classes {
            assert_eq!(
                failure_action(ErrorPolicy::Recover, mode, class),
                FailureAction::ReturnError
            );
        }
    }
}

#[test]
fn fail_fast_policy_never_returns_the_error() {
    let modes = [OpenMode::Truncatable, OpenMode::Appendable, OpenMode::Readable];
    let classes = [ErrorClass::NotFound, ErrorClass::Other];
    for mode in modes {
        for class in classes {
            assert_ne!(
                failure_action(ErrorPolicy::FailFast, mode, class),
                FailureAction::ReturnError
            );
        }
    }
}

#[test]
fn fail_fast_policy_chooses_the_documented_action() {
    let p = ErrorPolicy::FailFast;
    assert_eq!(
        failure_action(p, OpenMode::Truncatable, ErrorClass::NotFound),
        FailureAction::AbortWithDiagnostics
    );
    assert_eq!(
        failure_action(p, OpenMode::Truncatable, ErrorClass::Other),
        FailureAction::AbortWithDiagnostics
    );
    assert_eq!(
        failure_action(p, OpenMode::Appendable, ErrorClass::NotFound),
        FailureAction::AbortPlain
    );
    assert_eq!(
        failure_action(p, OpenMode::Appendable, ErrorClass::Other),
        FailureAction::AbortPlain
    );
    assert_eq!(
        failure_action(p, OpenMode::Readable, ErrorClass::NotFound),
        FailureAction::AbortWithDiagnostics
    );
    assert_eq!(
        failure_action(p, OpenMode::Readable, ErrorClass::Other),
        FailureAction::AbortUnhandledKind
    );
}

fn same_request(a: &OpenRequest, b: &OpenRequest) -> bool {
    a.path == b.path && a.mode == b.mode && a.policy == b.policy
}

#[test]
fn async_surface_requests_match_sync_surface() {
    let path = "shared.txt";
    assert!(same_request(&path.truncatable(), &path.tokio_truncatable()));
    assert!(same_request(&path.try_truncatable(), &path.tokio_try_truncatable()));
    assert!(same_request(&path.appendable(), &path.tokio_appendable()));
    assert!(same_request(&path.try_appendable(), &path.tokio_try_appendable()));
    assert!(same_request(&path.readable(), &path.tokio_readable()));
    assert!(same_request(&path.try_readable(), &path.tokio_try_readable()));
}

#[test]
fn async_surface_agrees_with_sync_surface_on_contents_and_errors() {
    let path = String::from("both.txt");

    let mut sync_fs = FsModel::new();
    let f = sync_fs.try_open(&path.try_truncatable()).unwrap();
    sync_fs.write(&f, &b"world".to_vec());
    let f = sync_fs.try_open(&path.try_appendable()).unwrap();
    sync_fs.write(&f, &b"world".to_vec());
    let sync_missing = sync_fs.try_open(&String::from("gone").try_readable());
    let f = sync_fs.try_open(&path.try_readable()).unwrap();
    let sync_contents = sync_fs.read(&f);

    let mut async_fs = FsModel::new();
    let f = async_fs.try_open(&path.tokio_try_truncatable()).unwrap();
    async_fs.write(&f, &b"world".to_vec());
    let f = async_fs.try_open(&path.tokio_try_appendable()).unwrap();
    async_fs.write(&f, &b"world".to_vec());
    let async_missing = async_fs.try_open(&String::from("gone").tokio_try_readable());
    let f = async_fs.try_open(&path.tokio_try_readable()).unwrap();
    let async_contents = async_fs.read(&f);

    assert_eq!(sync_contents, async_contents);
    assert_eq!(sync_missing.unwrap_err(), async_missing.unwrap_err());
}
