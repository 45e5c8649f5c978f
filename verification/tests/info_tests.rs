use gpio_lines::line::info::{LineAttribute, LineAttributes, LineInfo};
use gpio_lines::line::options::{Debounce, Direction};
use gpio_lines::line::values::MaskedBits;
use gpio_lines::uapi::v2::{gpio_line_attribute, gpio_line_info, LINE_ATTR_ID_DEBOUNCE,
    LINE_ATTR_ID_FLAGS, LINE_ATTR_ID_OUTPUT_VALUES, LINE_FLAG_ACTIVE_LOW, LINE_FLAG_OUTPUT,
    LINE_FLAG_USED};
use gpio_lines::Error;

fn wire_record(name: &str, consumer: &str) -> gpio_line_info {
    let mut w = gpio_line_info::zeroed();
    w.name[..name.len()].copy_from_slice(name.as_bytes());
    w.consumer[..consumer.len()].copy_from_slice(consumer.as_bytes());
    w
}

#[test]
fn decode_reads_names_flags_and_attributes() {
    let mut w = wire_record("gpio-a", "blinker");
    w.offset = 7;
    w.flags = LINE_FLAG_OUTPUT | LINE_FLAG_USED;
    w.num_attrs = 1;
    w.attrs[0] = gpio_line_attribute { id: LINE_ATTR_ID_DEBOUNCE, padding: 0, value: 1500 };

    let info = LineInfo::from_v2(w).unwrap();
    assert_eq!(info.name().unwrap(), "gpio-a");
    assert_eq!(info.consumer().unwrap(), "blinker");
    assert_eq!(info.line_offset(), 7);
    assert_eq!(info.direction(), Direction::Output);
    assert!(info.is_used());
    assert!(!info.is_active_low());
    assert!(!info.is_open_drain());
    assert!(!info.is_open_source());
    assert_eq!(info.debounce(), Some(Debounce::new_micros(1500)));
    assert_eq!(info.value(), None);
}

#[test]
fn empty_names_read_back_as_none() {
    let w = wire_record("", "");
    let info = LineInfo::from_v2(w).unwrap();
    assert!(info.name().is_none());
    assert!(info.consumer().is_none());
    assert_eq!(info.direction(), Direction::Input);
}

#[test]
fn decode_rejects_junk_after_the_name_nul() {
    let mut w = wire_record("ok", "c");
    w.name[10] = b'x';
    assert_eq!(LineInfo::from_v2(w).unwrap_err(), Error::Malformed);
}

#[test]
fn decode_rejects_invalid_name_utf8() {
    let mut w = wire_record("", "");
    w.name[0] = 0xff;
    assert_eq!(LineInfo::from_v2(w).unwrap_err(), Error::Malformed);
}

#[test]
fn decode_rejects_unknown_attribute_id() {
    let mut w = wire_record("a", "b");
    w.num_attrs = 1;
    w.attrs[0] = gpio_line_attribute { id: 99, padding: 0, value: 0 };
    assert_eq!(LineInfo::from_v2(w).unwrap_err(), Error::Unsupported);
}

#[test]
fn flag_attribute_overrides_base_flags_and_unions_on_repeat() {
    let mut w = wire_record("a", "b");
    w.flags = LINE_FLAG_USED;
    w.num_attrs = 2;
    w.attrs[0] = gpio_line_attribute { id: LINE_ATTR_ID_FLAGS, padding: 0, value: LINE_FLAG_OUTPUT };
    w.attrs[1] =
        gpio_line_attribute { id: LINE_ATTR_ID_FLAGS, padding: 0, value: LINE_FLAG_ACTIVE_LOW };

    let info = LineInfo::from_v2(w).unwrap();
    assert_eq!(info.flags(), LINE_FLAG_OUTPUT | LINE_FLAG_ACTIVE_LOW);
    // The direction getter reads the base flags the kernel reported.
    assert_eq!(info.direction(), Direction::Input);
    assert!(info.is_used());
}

#[test]
fn later_values_attribute_replaces_earlier() {
    let mut w = wire_record("a", "b");
    w.num_attrs = 2;
    w.attrs[0] = gpio_line_attribute { id: LINE_ATTR_ID_OUTPUT_VALUES, padding: 0, value: 0b0 };
    w.attrs[1] = gpio_line_attribute { id: LINE_ATTR_ID_OUTPUT_VALUES, padding: 0, value: 0b1 };
    let info = LineInfo::from_v2(w).unwrap();
    assert_eq!(info.value(), Some(true));
}

#[test]
fn encode_then_decode_restores_the_record() {
    let mut w = wire_record("gpio-b", "driver");
    w.offset = 12;
    w.flags = LINE_FLAG_OUTPUT;
    w.num_attrs = 2;
    w.attrs[0] = gpio_line_attribute { id: LINE_ATTR_ID_DEBOUNCE, padding: 0, value: 42 };
    w.attrs[1] = gpio_line_attribute { id: LINE_ATTR_ID_OUTPUT_VALUES, padding: 0, value: 0b101 };

    let info = LineInfo::from_v2(w).unwrap();
    let re_encoded = info.clone().into_v2();
    assert_eq!(re_encoded.offset, 12);
    assert_eq!(re_encoded.flags, LINE_FLAG_OUTPUT);
    assert_eq!(re_encoded.num_attrs, 2);
    assert_eq!(re_encoded.attrs[0].id, LINE_ATTR_ID_DEBOUNCE);
    assert_eq!(re_encoded.attrs[0].value, 42);
    assert_eq!(re_encoded.attrs[1].id, LINE_ATTR_ID_OUTPUT_VALUES);
    assert_eq!(re_encoded.attrs[1].value, 0b101);

    let decoded = LineInfo::from_v2(re_encoded).unwrap();
    assert_eq!(decoded.name(), info.name());
    assert_eq!(decoded.consumer(), info.consumer());
    assert_eq!(decoded.line_offset(), info.line_offset());
    assert_eq!(decoded.flags(), info.flags());
    assert_eq!(decoded.debounce(), info.debounce());
    assert_eq!(decoded.value(), info.value());
}

#[test]
fn new_get_asks_for_one_offset() {
    let w = LineInfo::new_get(9).into_v2();
    assert_eq!(w.offset, 9);
    assert_eq!(w.num_attrs, 0);
    assert_eq!(w.flags, 0);
    assert!(w.name.iter().all(|&b| b == 0));
}

#[test]
fn attribute_entries_convert_both_ways() {
    let d = LineAttribute::Debounce(Debounce::new_micros(7));
    let w = d.into_v2();
    assert_eq!(w.id, LINE_ATTR_ID_DEBOUNCE);
    assert_eq!(w.value, 7);
    assert_eq!(LineAttribute::new_v2(w).unwrap(), d);

    let v = LineAttribute::Values(MaskedBits::new(0b11, u64::MAX));
    let wv = v.into_v2();
    assert_eq!(wv.id, LINE_ATTR_ID_OUTPUT_VALUES);
    assert_eq!(LineAttribute::new_v2(wv).unwrap(), v);

    let bad = gpio_line_attribute { id: 42, padding: 0, value: 0 };
    assert_eq!(LineAttribute::new_v2(bad).unwrap_err(), Error::Unsupported);
}

#[test]
fn attribute_fold_of_empty_list_is_empty() {
    let w = gpio_line_info::zeroed();
    let folded = LineAttributes::from_attr_list(0, &w.attrs).unwrap();
    assert_eq!(folded.flags, None);
    assert_eq!(folded.values, None);
    assert_eq!(folded.debounce, None);
}
