use see::listing::{
    bytes_to_size, format_time, response_dir_html, DirRow, RowMeta, TimeParts,
};

fn contains(haystack: &[u8], needle: &[u8]) -> bool {
    haystack.windows(needle.len()).any(|w| w == needle)
}

#[test]
fn test_bytes_to_size() {
    assert_eq!(bytes_to_size(0), b"0.00 B".to_vec());
    assert_eq!(bytes_to_size(1), b"1.00 B".to_vec());
    assert_eq!(bytes_to_size(12), b"12.00 B".to_vec());
    assert_eq!(bytes_to_size(1024), b"1.00 KB".to_vec());
    assert_eq!(bytes_to_size(1025), b"1.00 KB".to_vec());
    assert_eq!(bytes_to_size(123456), b"120.56 KB".to_vec());
    assert_eq!(bytes_to_size(99999999), b"95.37 MB".to_vec());
    assert_eq!(bytes_to_size(99999999999), b"93.13 GB".to_vec());
}

#[test]
fn time_stamps_are_zero_padded() {
    let t = TimeParts { year: 2024, month: 3, day: 7, hour: 9, minute: 5 };
    assert_eq!(format_time(&t), b"2024-03-07 09:05".to_vec());
    let y = TimeParts { year: 99, month: 12, day: 31, hour: 23, minute: 59 };
    assert_eq!(format_time(&y), b"0099-12-31 23:59".to_vec());
}

#[test]
fn listing_rows_render_links_time_and_size() {
    let rows = vec![
        DirRow {
            name: b"docs".to_vec(),
            is_dir: true,
            is_file: false,
            meta: Some(RowMeta {
                modified: Some(TimeParts { year: 2024, month: 1, day: 2, hour: 3, minute: 4 }),
                size: 4096,
            }),
        },
        DirRow {
            name: b"a.txt".to_vec(),
            is_dir: false,
            is_file: true,
            meta: Some(RowMeta {
                modified: Some(TimeParts { year: 2024, month: 1, day: 2, hour: 3, minute: 4 }),
                size: 1024,
            }),
        },
    ];
    let page = response_dir_html(&rows, b"/files/", true, true);
    assert!(contains(&page, b"<title>Index of /files/</title>"));
    assert!(contains(&page, b"<h1>Index of /files/</h1>"));
    assert!(contains(&page, b"<a href=\"../\">../</a>"));
    // directories get a trailing slash and an empty size cell
    assert!(contains(&page, b"<a href=\"docs/\">docs/</a><time>2024-01-02 03:04</time><span></span>"));
    // files get their size on the binary scale
    assert!(contains(&page, b"<a href=\"a.txt\">a.txt</a><time>2024-01-02 03:04</time><span>1.00 KB</span>"));
    assert!(contains(&page, b"grid-template-columns: auto auto 1fr;"));
    assert!(contains(&page, b"grid-column: 1 / 4;"));
}

#[test]
fn listing_flags_shape_the_grid_and_cells() {
    let rows = vec![DirRow {
        name: b"x".to_vec(),
        is_dir: false,
        is_file: true,
        meta: Some(RowMeta { modified: None, size: 1 }),
    }];
    let bare = response_dir_html(&rows, b"/", false, false);
    assert!(contains(&bare, b"grid-template-columns: auto;"));
    assert!(contains(&bare, b"grid-column: 1 / 2;"));
    assert!(contains(&bare, b"<a href=\"x\">x</a>"));
    assert!(!contains(&bare, b"<time>"));
    assert!(!contains(&bare, b"<span>"));
    let sized = response_dir_html(&rows, b"/", false, true);
    assert!(contains(&sized, b"grid-template-columns: auto 1fr;"));
    assert!(contains(&sized, b"grid-column: 1 / 3;"));
    assert!(contains(&sized, b"<span>1.00 B</span>"));
    // an unreadable modification time renders an empty cell
    let timed = response_dir_html(&rows, b"/", true, false);
    assert!(contains(&timed, b"<time></time>"));
}

#[test]
fn unreadable_directory_renders_an_empty_listing() {
    let page = response_dir_html(&Vec::new(), b"/empty/", true, true);
    assert!(contains(&page, b"<title>Index of /empty/</title>"));
    assert!(contains(&page, b"<a href=\"../\">../</a>"));
    assert!(!contains(&page, b"<time>"));
}

#[test]
fn stat_failure_keeps_the_link_and_drops_the_cells() {
    let rows = vec![DirRow {
        name: b"ghost".to_vec(),
        is_dir: false,
        is_file: true,
        meta: None,
    }];
    let page = response_dir_html(&rows, b"/", true, true);
    assert!(contains(&page, b"<a href=\"ghost\">ghost</a>"));
    assert!(!contains(&page, b"<time>"));
    assert!(!contains(&page, b"<span>"));
}
