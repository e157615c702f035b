use zerolaunch::storage::{
    check_welcome_page_version_changed, get_current_welcome_page_version, next_transfer_step,
    plan_startup, select_storage_client, should_show_welcome, ConfigFileRead, FileCache,
    StorageClientKind, StorageDestination, TransferReply, TransferStep, WELCOME_PAGE_VERSION,
};

fn s(x: &str) -> String {
    x.to_string()
}

#[test]
fn zero_save_count_uploads_at_once() {
    let mut c = FileCache::new();
    assert_eq!(c.upload_file_bytes(0, s("a.json"), vec![1, 2]), Some(vec![1, 2]));
    assert_eq!(c.download_file_bytes(&s("a.json")), None);
}

#[test]
fn writes_are_batched_by_save_count() {
    let mut c = FileCache::new();
    assert_eq!(c.upload_file_bytes(2, s("a"), vec![1]), None);
    assert_eq!(c.upload_file_bytes(2, s("a"), vec![2]), None);
    assert_eq!(c.upload_file_bytes(2, s("a"), vec![3]), Some(vec![3]));
    assert_eq!(c.download_file_bytes(&s("a")), None);
    assert_eq!(c.upload_file_bytes(2, s("a"), vec![4]), None);
}

#[test]
fn save_count_one_sends_second_write() {
    let mut c = FileCache::new();
    assert_eq!(c.upload_file_bytes(1, s("f"), vec![9]), None);
    assert_eq!(c.upload_file_bytes(1, s("f"), vec![8]), Some(vec![8]));
}

#[test]
fn cached_write_reads_back() {
    let mut c = FileCache::new();
    c.upload_file_bytes(5, s("cfg"), vec![1, 2, 3]);
    assert_eq!(c.download_file_bytes(&s("cfg")), Some(vec![1, 2, 3]));
    c.upload_file_bytes(5, s("cfg"), vec![4]);
    assert_eq!(c.download_file_bytes(&s("cfg")), Some(vec![4]));
    assert_eq!(c.download_file_bytes(&s("other")), None);
}

#[test]
fn zero_save_count_drops_cached_copy() {
    let mut c = FileCache::new();
    c.upload_file_bytes(3, s("x"), vec![1]);
    assert_eq!(c.upload_file_bytes(0, s("x"), vec![2]), Some(vec![2]));
    assert_eq!(c.download_file_bytes(&s("x")), None);
}

#[test]
fn forced_upload_prefers_given_contents() {
    let mut c = FileCache::new();
    c.upload_file_bytes(3, s("x"), vec![1]);
    assert_eq!(c.upload_file_bytes_force(&s("x"), Some(vec![7])), Some(vec![7]));
    assert_eq!(c.download_file_bytes(&s("x")), None);
}

#[test]
fn forced_upload_sends_cached_contents() {
    let mut c = FileCache::new();
    c.upload_file_bytes(3, s("x"), vec![1, 1]);
    assert_eq!(c.upload_file_bytes_force(&s("x"), None), Some(vec![1, 1]));
    assert_eq!(c.upload_file_bytes_force(&s("x"), None), None);
}

#[test]
fn upload_all_empties_cache() {
    let mut c = FileCache::new();
    c.upload_file_bytes(3, s("a"), vec![1]);
    c.upload_file_bytes(3, s("b"), vec![2]);
    c.upload_file_bytes(3, s("a"), vec![3]);
    let mut all = c.upload_all_file_force();
    all.sort();
    assert_eq!(all, vec![(s("a"), vec![3]), (s("b"), vec![2])]);
    assert_eq!(c.download_file_bytes(&s("a")), None);
    assert!(c.upload_all_file_force().is_empty());
}

#[test]
fn forced_download_drops_cache_entry() {
    let mut c = FileCache::new();
    c.upload_file_bytes(3, s("a"), vec![1]);
    c.download_file_bytes_force(&s("a"));
    assert_eq!(c.download_file_bytes(&s("a")), None);
    assert_eq!(c.upload_file_bytes(3, s("a"), vec![2]), None);
}

#[test]
fn welcome_version_check() {
    assert_eq!(WELCOME_PAGE_VERSION, "1.0.1");
    assert_eq!(get_current_welcome_page_version(), "1.0.1");
    assert!(check_welcome_page_version_changed(&None));
    assert!(!check_welcome_page_version_changed(&Some(s("1.0.1"))));
    assert!(check_welcome_page_version_changed(&Some(s("1.0.0"))));
    assert!(should_show_welcome(true, &Some(s("1.0.1"))));
    assert!(!should_show_welcome(false, &Some(s("1.0.1"))));
    assert!(should_show_welcome(false, &None));
}

#[test]
fn startup_plans() {
    let p = plan_startup(ConfigFileRead::Found(s("{\"a\":1}")), s("{}"));
    assert_eq!(p.config_text, "{\"a\":1}");
    assert!(!p.write_default && !p.first_startup);
    let p = plan_startup(ConfigFileRead::NotFound, s("{\"d\":0}"));
    assert_eq!(p.config_text, "{\"d\":0}");
    assert!(p.write_default && p.first_startup);
    let p = plan_startup(ConfigFileRead::Failed, s("{}"));
    assert_eq!(p.config_text, "{}");
    assert!(!p.write_default && !p.first_startup);
}

#[test]
fn client_selection() {
    assert_eq!(select_storage_client(StorageDestination::Local), Some(StorageClientKind::Local));
    assert_eq!(select_storage_client(StorageDestination::WebDAV), Some(StorageClientKind::WebDAV));
    assert_eq!(select_storage_client(StorageDestination::OneDrive), None);
}

#[test]
fn transfer_replies() {
    assert!(matches!(next_transfer_step(TransferReply::Succeeded(5)), TransferStep::Finish(5)));
    assert!(matches!(next_transfer_step::<u8>(TransferReply::Failed), TransferStep::ResetAndRetry));
    assert!(matches!(next_transfer_step::<u8>(TransferReply::NoClient), TransferStep::ResetAndRetry));
}

#[test]
fn text_writes_read_back() {
    let mut c = FileCache::new();
    assert_eq!(c.upload_file_str(2, s("note.txt"), s("你好, world")), None);
    assert_eq!(c.download_file_str(&s("note.txt")), Some(s("你好, world")));
    assert_eq!(c.download_file_bytes(&s("note.txt")), Some("你好, world".as_bytes().to_vec()));
    assert_eq!(c.download_file_str(&s("absent")), None);
}

#[test]
fn text_from_invalid_bytes_is_lossy() {
    assert_eq!(zerolaunch::storage::text_from_bytes(Some(vec![b'a', 0xff, b'b'])), Some(s("a\u{FFFD}b")));
    assert_eq!(zerolaunch::storage::text_from_bytes(Some(vec![0xe4, 0xbd, 0xa0])), Some(s("你")));
    assert_eq!(zerolaunch::storage::text_from_bytes(None), None);
}
