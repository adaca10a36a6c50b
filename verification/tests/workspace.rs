use ksforge::domain::change_request::ChangeRequest;
use ksforge::domain::execution::ExecutionId;
use ksforge::workspace::archive::{base62_encode, base62_encode_padded, new_id, ChangeRequestArchive};
use ksforge::workspace::isolate::{strip_verbatim_prefix_on, strip_windows_verbatim_prefix};
use ksforge::workspace::snapshot::{changed_files, Snapshot};
use ksforge::workspace::store::ExecutionStore;

#[test]
fn base62_encoding_round_trips_known_values() {
    assert_eq!(base62_encode(0), "0");
    assert_eq!(base62_encode(61), "z");
    assert_eq!(base62_encode(62), "10");
}

#[test]
fn padded_base62_has_the_requested_width() {
    assert_eq!(base62_encode_padded(62, 6), "000010");
    assert_eq!(base62_encode_padded(0, 6), "000000");
    assert_eq!(base62_encode_padded(56800235583, 6), "zzzzzz");
}

#[test]
fn fresh_ids_are_cr_and_six_base62_digits() {
    let id = new_id();
    assert_eq!(id.len(), 9);
    assert!(id.starts_with("CR-"));
    assert!(id[3..].chars().all(|c| c.is_ascii_alphanumeric()));
}

#[test]
fn assigns_base62_ids_and_names_markdown_and_json() {
    let archive = ChangeRequestArchive::new("/w");
    assert_eq!(archive.root(), "/w/.ksforge/change-requests");
    let cr = ChangeRequest::from_text("  As a user, I want X.  ").ok().unwrap();
    let entry = archive.record_for(&cr, "implement", &ExecutionId("ksf_1".to_string()));
    let id = entry.record.id.clone();
    assert!(id.starts_with("CR-"));
    assert_eq!(entry.markdown_name, format!("{id}.md"));
    assert_eq!(entry.json_name, format!("{id}.json"));
    assert_eq!(entry.markdown_body, "As a user, I want X.\n");
    assert_eq!(entry.record.markdown_file, format!(".ksforge/change-requests/{id}.md"));
    assert_eq!(entry.record.capability, "implement");
}

#[test]
fn strips_a_plain_disk_prefix() {
    assert_eq!(
        strip_verbatim_prefix_on(r"\\?\C:\chevp\apps\ksforge".to_string(), true),
        r"C:\chevp\apps\ksforge".to_string()
    );
}

#[test]
fn strips_a_unc_prefix() {
    assert_eq!(
        strip_verbatim_prefix_on(r"\\?\UNC\server\share\dir".to_string(), true),
        r"\\server\share\dir".to_string()
    );
}

#[test]
fn leaves_an_already_plain_path_untouched() {
    assert_eq!(
        strip_verbatim_prefix_on(r"C:\chevp\apps\ksforge".to_string(), true),
        r"C:\chevp\apps\ksforge".to_string()
    );
}

#[test]
fn the_prefix_is_stripped_only_on_windows() {
    let path = r"\\?\C:\chevp\apps\ksforge".to_string();
    let expected = if std::path::is_separator('\\') {
        r"C:\chevp\apps\ksforge".to_string()
    } else {
        path.clone()
    };
    assert_eq!(strip_windows_verbatim_prefix(path.clone()), expected);
    assert_eq!(strip_verbatim_prefix_on(path.clone(), false), path);
}

fn snapshot(entries: &[(&str, &str)]) -> Snapshot {
    Snapshot::from_entries(
        entries
            .iter()
            .map(|(p, d)| (p.to_string(), d.to_string()))
            .collect(),
    )
    .unwrap()
}

#[test]
fn detects_added_modified_deleted() {
    let before = snapshot(&[("a.txt", "1"), ("b.txt", "2"), ("c.txt", "3")]);
    let after = snapshot(&[("a.txt", "1"), ("b.txt", "9"), ("d.txt", "4")]);
    assert_eq!(
        changed_files(&before, &after),
        vec!["b.txt".to_string(), "c.txt".to_string(), "d.txt".to_string()]
    );
}

#[test]
fn an_untouched_tree_shows_no_change() {
    let s = snapshot(&[("a.txt", "1"), ("src/b.rs", "2")]);
    let t = snapshot(&[("a.txt", "1"), ("src/b.rs", "2")]);
    assert!(changed_files(&s, &t).is_empty());
}

#[test]
fn entries_out_of_path_order_are_refused() {
    let entries = vec![
        ("b.txt".to_string(), "1".to_string()),
        ("a.txt".to_string(), "2".to_string()),
    ];
    assert!(Snapshot::from_entries(entries).is_none());
}

#[test]
fn store_paths_live_under_the_workspace_state_directory() {
    let store = ExecutionStore::new("/w");
    let id = ExecutionId("ksf_abc".to_string());
    assert_eq!(store.root(), "/w/.ksforge/executions");
    assert_eq!(store.dir_for(&id), "/w/.ksforge/executions/ksf_abc");
    assert_eq!(store.state_path(&id), "/w/.ksforge/executions/ksf_abc/state.json");
    assert_eq!(store.request_path(&id), "/w/.ksforge/executions/ksf_abc/request.json");
    assert_eq!(
        store.processed_event_path(&id, "123"),
        "/w/.ksforge/executions/ksf_abc/processed-events/123"
    );
}

#[test]
fn a_file_is_recorded_by_its_sha256_in_hex() {
    assert_eq!(
        ksforge::workspace::snapshot::digest_hex(b"abc"),
        "ba7816bf8f01cfea414140de5dae2223b00361a396177a9cb410ff61f20015ad"
    );
}

#[test]
fn base62_reads_back_and_only_zero_leads_with_zero() {
    let alphabet = "0123456789ABCDEFGHIJKLMNOPQRSTUVWXYZabcdefghijklmnopqrstuvwxyz";
    for v in [0u128, 1, 61, 62, 3849, 3850, 56_800_235_583, u128::MAX] {
        let s = base62_encode(v);
        let back = s.chars().fold(0u128, |acc, c| acc.wrapping_mul(62).wrapping_add(alphabet.find(c).unwrap() as u128));
        assert_eq!(back, v);
        assert_eq!(s.starts_with('0'), v == 0);
    }
}

#[test]
fn changes_read_the_same_either_way_round() {
    let a = snapshot(&[("a.rs", "1"), ("b.rs", "2")]);
    let b = snapshot(&[("b.rs", "3"), ("c.rs", "4")]);
    assert_eq!(changed_files(&a, &b), changed_files(&b, &a));
    assert!(changed_files(&a, &a).is_empty());
}
