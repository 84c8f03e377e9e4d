use ccdown::cli::{check_crawl_name, crawl_name_format, is_crawl_name_str, DataType};

// crawl_name_format tests
#[test]
fn valid_cc_main_format() {
    assert_eq!(
        crawl_name_format("CC-MAIN-2025-08"),
        Ok("CC-MAIN-2025-08".to_string())
    );
}

#[test]
fn valid_cc_news_format() {
    assert_eq!(
        crawl_name_format("CC-NEWS-2025-01"),
        Ok("CC-NEWS-2025-01".to_string())
    );
}

#[test]
fn case_insensitive_crawl_name() {
    assert_eq!(
        crawl_name_format("cc-main-2021-04"),
        Ok("CC-MAIN-2021-04".to_string())
    );
}

#[test]
fn invalid_crawl_name_missing_week() {
    assert!(crawl_name_format("CC-MAIN-2025").is_err());
}

#[test]
fn invalid_crawl_name_wrong_prefix() {
    assert!(crawl_name_format("CC-OTHER-2025-08").is_err());
}

#[test]
fn invalid_crawl_name_extra_digits() {
    assert!(crawl_name_format("CC-MAIN-2025-123").is_err());
}

#[test]
fn invalid_crawl_name_empty() {
    assert!(crawl_name_format("").is_err());
}

// DataType::as_str tests
#[test]
fn data_type_segment() {
    assert_eq!(DataType::Segment.as_str(), "segment");
}

#[test]
fn data_type_warc() {
    assert_eq!(DataType::Warc.as_str(), "warc");
}

#[test]
fn data_type_wat() {
    assert_eq!(DataType::Wat.as_str(), "wat");
}

#[test]
fn data_type_wet() {
    assert_eq!(DataType::Wet.as_str(), "wet");
}

#[test]
fn data_type_robotstxt() {
    assert_eq!(DataType::Robotstxt.as_str(), "robotstxt");
}

#[test]
fn data_type_non200responses() {
    assert_eq!(DataType::Non200responses.as_str(), "non200responses");
}

#[test]
fn data_type_cc_index() {
    assert_eq!(DataType::CcIndex.as_str(), "cc-index");
}

#[test]
fn data_type_cc_index_table() {
    assert_eq!(DataType::CcIndexTable.as_str(), "cc-index-table");
}

const FORMAT_MESSAGE: &str = "Please use the CC-MAIN-YYYY-WW or the CC-NEWS-YYYY-MM format.";

#[test]
fn data_type_names_are_distinct() {
    let all = [
        DataType::Segment,
        DataType::Warc,
        DataType::Wat,
        DataType::Wet,
        DataType::Robotstxt,
        DataType::Non200responses,
        DataType::CcIndex,
        DataType::CcIndexTable,
    ];
    for a in all.iter() {
        for b in all.iter() {
            assert_eq!(a.as_str() == b.as_str(), a == b);
        }
    }
}

#[test]
fn refused_crawl_name_gets_format_message() {
    assert_eq!(crawl_name_format("INVALID-FORMAT"), Err(FORMAT_MESSAGE.to_string()));
}

#[test]
fn crawl_name_mixed_case_news() {
    assert_eq!(
        crawl_name_format("Cc-NeWs-2024-12"),
        Ok("CC-NEWS-2024-12".to_string())
    );
}

#[test]
fn crawl_name_uses_unicode_uppercase() {
    // U+017F LATIN SMALL LETTER LONG S upper-cases to 'S'.
    assert_eq!(
        crawl_name_format("cc-new\u{17f}-2025-01"),
        Ok("CC-NEWS-2025-01".to_string())
    );
}

#[test]
fn crawl_name_ignores_case_law_example() {
    assert_eq!(crawl_name_format("cc-main-2021-04"), crawl_name_format("CC-MAIN-2021-04"));
    assert_eq!(crawl_name_format("cc-main-2021"), crawl_name_format("CC-MAIN-2021"));
}

#[test]
fn crawl_name_rejects_trailing_newline() {
    assert!(crawl_name_format("CC-MAIN-2025-08\n").is_err());
    assert!(crawl_name_format(" CC-MAIN-2025-08").is_err());
}

#[test]
fn crawl_name_rejects_non_ascii_digits() {
    // U+0661 ARABIC-INDIC DIGIT ONE is a digit, but not one of [0-9].
    assert!(crawl_name_format("CC-MAIN-2025-0\u{661}").is_err());
    assert!(crawl_name_format("CC-MAIN-20a5-08").is_err());
    assert!(crawl_name_format("CC-MAIN-2025_08").is_err());
    assert!(crawl_name_format("CC_MAIN-2025-08").is_err());
}

#[test]
fn check_crawl_name_keeps_accepted_name() {
    assert_eq!(
        check_crawl_name("CC-NEWS-2025-01".to_string()),
        Ok("CC-NEWS-2025-01".to_string())
    );
    // The check itself does not change case.
    assert_eq!(
        check_crawl_name("cc-news-2025-01".to_string()),
        Err(FORMAT_MESSAGE.to_string())
    );
}

#[test]
fn is_crawl_name_str_examples() {
    assert!(is_crawl_name_str("CC-MAIN-0000-00"));
    assert!(is_crawl_name_str("CC-NEWS-9999-99"));
    assert!(!is_crawl_name_str("CC-MAIN-2025-1"));
    assert!(!is_crawl_name_str("CC-MAIX-2025-10"));
    assert!(!is_crawl_name_str(""));
}

#[test]
fn accepted_name_is_accepted_again_as_itself() {
    for c in ["cc-main-2021-04", "CC-NEWS-2025-01", "Cc-MaIn-1999-52", "cc-new\u{17f}-2025-01"] {
        let name = crawl_name_format(c).unwrap();
        assert_eq!(crawl_name_format(&name), Ok(name.clone()));
    }
}

#[test]
fn ascii_case_variants_give_same_result() {
    for c in ["cc-main-2021-04", "CC-NEWS-2025-01", "cC-nEwS-2025-1x", "cc-other-2025-08", ""] {
        assert_eq!(crawl_name_format(c), crawl_name_format(&c.to_ascii_lowercase()));
        assert_eq!(crawl_name_format(c), crawl_name_format(&c.to_ascii_uppercase()));
    }
}
