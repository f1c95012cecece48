use ls_implementation::{
    list_ls, shifted_date, standard_ls, Entry, EntryMeta, ListError, LongListItem,
};

fn file_meta(mode: u32, nlink: u64, size: u64, mtime: i64) -> EntryMeta {
    EntryMeta { is_dir: false, mode, nlink, uid: 0, gid: 0, size, mtime }
}

fn named(s: &str) -> Option<String> {
    Some(s.to_string())
}

#[test]
fn short_listing_of_three_files() {
    let names = vec!["a".to_string(), "b".to_string(), "c".to_string()];
    let lines = standard_ls(&names);
    assert_eq!(lines.len(), 3);
    for n in ["a", "b", "c"] {
        let want = format!("{} ", n);
        assert_eq!(lines.iter().filter(|l| **l == want).count(), 1);
    }
}

#[test]
fn short_listing_of_nothing() {
    assert!(standard_ls(&Vec::new()).is_empty());
}

#[test]
fn long_row_of_plain_0644_file() {
    let meta = file_meta(0o100644, 1, 0, 0);
    let item = LongListItem::assemble(&meta, "f.txt", named("alice"), named("staff"), named("01 Jan 00:00"))
        .unwrap();
    assert_eq!(item.file_type, '-');
    assert_eq!(item.permissions, "rw-r--r--");
    assert_eq!(item.hard_links_count.to_string(), "1");
    assert_eq!(item.size.to_string(), "0");
    assert_eq!(item.to_line(), "-rw-r--r--  1  alice  staff 0  01 Jan 00:00 f.txt");
}

#[test]
fn long_row_of_directory() {
    let meta = EntryMeta { is_dir: true, mode: 0o40755, nlink: 2, uid: 0, gid: 0, size: 4096, mtime: 0 };
    let item = LongListItem::assemble(&meta, "sub", named("root"), named("wheel"), named("05 Mar 13:07"))
        .unwrap();
    assert_eq!(item.file_type, 'd');
    assert_eq!(item.to_line(), "drwxr-xr-x  2  root  wheel 4096  05 Mar 13:07 sub");
}

#[test]
fn long_row_with_largest_counts() {
    let meta = file_meta(0o100000, u64::MAX, u64::MAX, 0);
    let item = LongListItem::assemble(&meta, "x y", named("u"), named("g"), named("d")).unwrap();
    assert_eq!(
        item.to_line(),
        "----------  18446744073709551615  u  g 18446744073709551615  d x y"
    );
}

#[test]
fn long_row_needs_owner_name() {
    let meta = file_meta(0o100644, 1, 0, 0);
    let r = LongListItem::assemble(&meta, "f", None, named("g"), named("d"));
    assert_eq!(r.unwrap_err(), ListError::IdentityResolutionError);
}

#[test]
fn long_row_needs_group_name() {
    let meta = file_meta(0o100644, 1, 0, 0);
    let r = LongListItem::assemble(&meta, "f", named("o"), None, None);
    assert_eq!(r.unwrap_err(), ListError::IdentityResolutionError);
}

#[test]
fn long_row_needs_date() {
    let meta = file_meta(0o100644, 1, 0, 0);
    let r = LongListItem::assemble(&meta, "f", named("o"), named("g"), None);
    assert_eq!(r.unwrap_err(), ListError::TimestampRangeError);
}

#[test]
fn date_of_epoch() {
    assert_eq!(shifted_date(0, 0).unwrap(), "01 Jan 00:00");
}

#[test]
fn date_is_shifted_by_offset() {
    assert_eq!(shifted_date(86_399, 3_600).unwrap(), "02 Jan 00:59");
    assert_eq!(shifted_date(0, -60).unwrap(), "31 Dec 23:59");
}

#[test]
fn date_of_recent_time() {
    // 2021-07-04 15:30:00 UTC
    assert_eq!(shifted_date(1_625_412_600, 0).unwrap(), "04 Jul 15:30");
}

#[test]
fn date_out_of_range() {
    assert_eq!(shifted_date(i64::MAX, 1).unwrap_err(), ListError::TimestampRangeError);
    assert_eq!(
        shifted_date(9_000_000_000_000_000, 0).unwrap_err(),
        ListError::TimestampRangeError
    );
}

#[test]
fn new_row_for_root_owned_file() {
    let meta = file_meta(0o100644, 1, 0, 0);
    let item = LongListItem::new(&meta, "known").unwrap();
    assert_eq!(item.owner, "root");
    assert_eq!(item.group, "root");
    assert_eq!(item.permissions, "rw-r--r--");
    assert_eq!(item.date.chars().count(), 12);
    let line = item.to_line();
    assert!(line.starts_with("-rw-r--r--  1  root  root 0  "));
    assert!(line.ends_with(" known"));
}

#[test]
fn long_listing_of_entries() {
    let entries = vec![
        Entry { name: "a".to_string(), meta: file_meta(0o100600, 1, 10, 0) },
        Entry {
            name: "b".to_string(),
            meta: EntryMeta { is_dir: true, mode: 0o40700, nlink: 3, uid: 0, gid: 0, size: 0, mtime: 0 },
        },
    ];
    let lines = list_ls(&entries).unwrap();
    assert_eq!(lines.len(), 2);
    assert!(lines[0].starts_with("-rw-------  1  root  root 10  "));
    assert!(lines[1].starts_with("drwx------  3  root  root 0  "));
}

#[test]
fn long_listing_stops_at_far_timestamp() {
    let entries = vec![Entry { name: "a".to_string(), meta: file_meta(0o100644, 1, 0, i64::MAX) }];
    assert_eq!(list_ls(&entries).unwrap_err(), ListError::TimestampRangeError);
}

#[test]
fn long_listing_of_nothing() {
    assert!(list_ls(&Vec::new()).unwrap().is_empty());
}

#[test]
fn long_listing_of_single_0644_file() {
    let entries = vec![Entry { name: "f".to_string(), meta: file_meta(0o100644, 1, 0, 0) }];
    let lines = list_ls(&entries).unwrap();
    assert_eq!(lines.len(), 1);
    assert!(lines[0].starts_with("-rw-r--r--  1  root  root 0  "));
    assert!(lines[0].ends_with(" f"));
    assert_eq!(lines[0].chars().count(), "-rw-r--r--  1  root  root 0  ".len() + 12 + 2);
}
