use month_table::FixedStringTable;
use month_table::TableError;
use month_table::MONTH_COUNT;

const EXPECTED: [&str; 12] = [
    "January",
    "February",
    "March",
    "April",
    "May",
    "June",
    "July",
    "August",
    "September",
    "October",
    "November",
    "December",
];

#[test]
fn every_index_names_its_month() {
    let t = FixedStringTable::construct();
    for i in 0..12 {
        assert_eq!(t.get(i), EXPECTED[i]);
    }
}

#[test]
fn table_length_is_twelve() {
    let t = FixedStringTable::construct();
    assert_eq!(t.len(), 12);
    assert_eq!(MONTH_COUNT, 12);
}

#[test]
fn ascending_scan_is_calendar_order_and_repeatable() {
    let t1 = FixedStringTable::construct();
    let t2 = FixedStringTable::construct();
    let l1 = t1.month_lines();
    let l2 = t2.month_lines();
    assert_eq!(l1.len(), 12);
    assert_eq!(l1, l2);
    for i in 0..12 {
        assert_eq!(l1[i], format!("current month is: {}", EXPECTED[i]));
    }
    for i in 0..12 {
        for j in 0..12 {
            if i != j {
                assert_ne!(l1[i], l1[j]);
            }
        }
    }
}

#[test]
fn round_trip_is_byte_for_byte() {
    let t = FixedStringTable::construct();
    for i in 0..12 {
        assert_eq!(t.get(i).as_bytes(), EXPECTED[i].as_bytes());
    }
}

#[test]
fn out_of_range_is_reported() {
    let t = FixedStringTable::construct();
    assert_eq!(t.try_get(11), Ok("December"));
    assert_eq!(t.try_get(12), Err(TableError::IndexOutOfRange));
    assert_eq!(t.try_get(usize::MAX), Err(TableError::IndexOutOfRange));
}

#[test]
fn report_interleaves_marks_per_month() {
    let t = FixedStringTable::construct();
    let stack_marks: Vec<String> = (0..12).map(|i| format!("0xstack{i}")).collect();
    let heap_marks: Vec<String> = (0..12).map(|i| format!("0xheap{i}")).collect();
    let lines = t.report_lines(&stack_marks, &heap_marks);
    assert_eq!(lines.len(), 36);
    for i in 0..12 {
        assert_eq!(lines[3 * i], format!("current month is: {}", EXPECTED[i]));
        assert_eq!(lines[3 * i + 1], format!("data address on stack : 0xstack{i}"));
        assert_eq!(lines[3 * i + 2], format!("data address on heap  : 0xheap{i}"));
    }
}
