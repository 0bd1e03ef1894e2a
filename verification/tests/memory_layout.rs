use dfu_libusb::memory_layout::check_sizes;
use dfu_libusb::{MemoryLayout, MemoryLayoutError};

fn sizes_fit(text: &str) -> bool {
    let chars: Vec<char> = text.chars().collect();
    check_sizes(&chars)
}

#[test]
fn layout_with_leading_zeros() {
    let layout = MemoryLayout::parse("04*032Kg,01*128Kg,07*256Kg").unwrap();
    assert_eq!(
        layout.pages,
        vec![
            32768, 32768, 32768, 32768, 131072, 262144, 262144, 262144, 262144, 262144, 262144,
            262144
        ]
    );
}

#[test]
fn layout_without_leading_zeros() {
    let layout = MemoryLayout::parse("4*32Kg,1*128Kg").unwrap();
    assert_eq!(layout.pages, vec![32768, 32768, 32768, 32768, 131072]);
}

#[test]
fn layout_units() {
    assert_eq!(MemoryLayout::parse("1*3 a").unwrap().pages, vec![3]);
    assert_eq!(MemoryLayout::parse("1*3Ka").unwrap().pages, vec![3 * 1024]);
    assert_eq!(MemoryLayout::parse("1*3Ma").unwrap().pages, vec![3 * 1024 * 1024]);
    assert_eq!(MemoryLayout::parse("0*3Ma").unwrap().pages, Vec::<u32>::new());
}

fn refused(text: &str) -> MemoryLayoutError {
    MemoryLayout::parse(text).unwrap_err()
}

#[test]
fn layout_errors_of_the_parser() {
    let format = |s: &str| MemoryLayoutError::InvalidPageFormat(s.to_string());
    let count = |s: &str| MemoryLayoutError::ParseErrorPageCount(s.to_string());
    let size = |s: &str| MemoryLayoutError::ParseErrorPageSize(s.to_string());
    let prefix = |s: &str| MemoryLayoutError::InvalidPrefix(s.to_string());
    assert_eq!(refused(""), format(""));
    assert_eq!(refused("04-032Kg"), format("04-032Kg"));
    assert_eq!(refused("1*1Kg,"), format(""));
    assert_eq!(refused("1*1Kg,2+2Kg,3*3Kg"), format("2+2Kg"));
    assert_eq!(refused("x*032Kg"), count("x"));
    assert_eq!(refused("*032Kg"), count(""));
    assert_eq!(refused("4*x32Kg"), size("x32"));
    assert_eq!(refused("4*K"), size("K"));
    assert_eq!(refused("4*Kg"), size(""));
    assert_eq!(refused("4*032Gg"), prefix("G"));
    assert_eq!(refused("4*032kg"), prefix("k"));
}

#[test]
fn layout_outside_ascii_is_refused() {
    assert_eq!(refused("4*032K\u{e9}"), MemoryLayoutError::NotAscii);
    assert_eq!(refused("4*032\u{e9}"), MemoryLayoutError::NotAscii);
    assert_eq!(refused("4*03\u{20ac}"), MemoryLayoutError::NotAscii);
    assert_eq!(refused("\u{e9}"), MemoryLayoutError::NotAscii);
}

#[test]
fn layout_size_at_the_limit() {
    assert_eq!(MemoryLayout::parse("1*4194303Kg").unwrap().pages, vec![4194303 * 1024]);
    assert_eq!(MemoryLayout::parse("1*4194304Kg"), Err(MemoryLayoutError::PageSizeTooLarge));
    assert_eq!(MemoryLayout::parse("1*4095Mg").unwrap().pages, vec![4095 * 1024 * 1024]);
    assert_eq!(MemoryLayout::parse("1*4096Mg"), Err(MemoryLayoutError::PageSizeTooLarge));
    assert_eq!(MemoryLayout::parse("1*4294967295 g").unwrap().pages, vec![u32::MAX]);
    assert_eq!(
        refused("1*4294967296 g"),
        MemoryLayoutError::ParseErrorPageSize("4294967296".to_string())
    );
    assert_eq!(
        MemoryLayout::parse("1*0000000000000000000004194303Kg").unwrap().pages,
        vec![4194303 * 1024]
    );
    assert_eq!(
        MemoryLayout::parse("1*99999999999999999999999999Kg"),
        Err(MemoryLayoutError::PageSizeTooLarge)
    );
}

#[test]
fn sizes_are_checked_in_front_of_units_only() {
    assert!(sizes_fit(""));
    assert!(sizes_fit("99999999999999999999"));
    assert!(sizes_fit("99999999999999999999*1Kg"));
    assert!(sizes_fit("4194303K"));
    assert!(!sizes_fit("4194304K"));
    assert!(sizes_fit("4194304 K"));
    assert!(sizes_fit("4095M"));
    assert!(!sizes_fit("4096M"));
    assert!(sizes_fit("4096m"));
    assert!(!sizes_fit("1*1Kg,1*5000Mg"));
    assert!(sizes_fit("5000x1M"));
    assert!(sizes_fit("KM"));
}
