use axdriver_net::realtek::RealtekCommon;

#[test]
fn test_pages_for_size() {
    assert_eq!(RealtekCommon::pages_for_size(0), 0);
    assert_eq!(RealtekCommon::pages_for_size(1), 1);
    assert_eq!(RealtekCommon::pages_for_size(4096), 1);
    assert_eq!(RealtekCommon::pages_for_size(4097), 2);
    assert_eq!(RealtekCommon::pages_for_size(8192), 2);
}

#[test]
fn test_pad_frame_size() {
    assert_eq!(RealtekCommon::pad_frame_size(0), 60);
    assert_eq!(RealtekCommon::pad_frame_size(30), 60);
    assert_eq!(RealtekCommon::pad_frame_size(60), 60);
    assert_eq!(RealtekCommon::pad_frame_size(100), 100);
    assert_eq!(RealtekCommon::pad_frame_size(1500), 1500);
}

#[test]
fn padding_is_idempotent() {
    for size in [0usize, 1, 59, 60, 61, 1514] {
        let once = RealtekCommon::pad_frame_size(size);
        assert!(once >= 60);
        assert_eq!(RealtekCommon::pad_frame_size(once), once);
    }
}

#[test]
fn page_count_is_minimal() {
    for size in [1usize, 4095, 4096, 4097, 9744] {
        let n = RealtekCommon::pages_for_size(size);
        assert!(n * 4096 >= size);
        assert!((n - 1) * 4096 < size);
    }
}
