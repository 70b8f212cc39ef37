use cofj::{journal_with_entry, prepend_entry, CoffeeEntry, Preparation, ProcessingMethod, Roast, Timestamp};

fn first_entry() -> CoffeeEntry {
    CoffeeEntry::with_timestamp(
        Timestamp::new(2025, 1, 15, 10, 0, 0).unwrap(),
        "First Brand".to_string(),
        "First Coffee".to_string(),
        "First Origin".to_string(),
        ProcessingMethod::Natural,
        Roast::Light,
        Preparation::Pourover,
        8,
    )
    .unwrap()
}

fn second_entry() -> CoffeeEntry {
    CoffeeEntry::with_timestamp(
        Timestamp::new(2025, 1, 15, 14, 0, 0).unwrap(),
        "Second Brand".to_string(),
        "Second Coffee".to_string(),
        "Second Origin".to_string(),
        ProcessingMethod::Washed,
        Roast::Dark,
        Preparation::Espresso,
        9,
    )
    .unwrap()
}

#[test]
fn test_save_entry_to_new_file() {
    let entry = CoffeeEntry::with_timestamp(
        Timestamp::new(2025, 1, 15, 10, 0, 0).unwrap(),
        "Test Brand".to_string(),
        "Test Coffee".to_string(),
        "Test Origin".to_string(),
        ProcessingMethod::Washed,
        Roast::Medium,
        Preparation::Drip,
        7,
    )
    .unwrap();

    let content = journal_with_entry(&entry, None);
    assert!(content.contains("2025-01-15 10:00:00"));
    assert!(content.contains("Brand: Test Brand"));
    assert!(content.contains("---"));
    assert_eq!(content, format!("{}\n", entry.to_plaintext()));
    assert_eq!(
        content,
        "2025-01-15 10:00:00\nBrand: Test Brand\nName: Test Coffee\nOrigin: Test Origin\nProcessing: Washed\nRoast: Medium\nPreparation: Drip\nRating: 7/10\n---\n\n"
    );
}

#[test]
fn test_save_entry_prepends_to_existing_file() {
    let entry1 = first_entry();
    let after_first = journal_with_entry(&entry1, None);

    let entry2 = second_entry();
    let content = journal_with_entry(&entry2, Some(&after_first));

    let second_pos = content.find("Second Brand").unwrap();
    let first_pos = content.find("First Brand").unwrap();
    assert!(second_pos < first_pos, "Newer entry should appear before older entry");

    assert!(content.contains("2025-01-15 14:00:00"));
    assert!(content.contains("2025-01-15 10:00:00"));

    assert_eq!(content, format!("{}\n{}\n", entry2.to_plaintext(), entry1.to_plaintext()));
    assert!(content.starts_with(&entry2.to_plaintext()));
    assert_eq!(content.find(&entry1.to_plaintext()), Some(entry2.to_plaintext().len() + 1));
}

#[test]
fn test_file_created_if_not_exists() {
    let entry = CoffeeEntry::with_timestamp(
        Timestamp::new(2025, 1, 15, 12, 0, 0).unwrap(),
        "Brand".to_string(),
        "Coffee".to_string(),
        "Origin".to_string(),
        ProcessingMethod::AnerobicFermentation,
        Roast::Medium,
        Preparation::Cortado,
        6,
    )
    .unwrap();

    let content = journal_with_entry(&entry, None);

    assert_eq!(content, format!("{}\n", entry.to_plaintext()));
    assert_eq!(
        content,
        "2025-01-15 12:00:00\nBrand: Brand\nName: Coffee\nOrigin: Origin\nProcessing: Anerobic Fermentation\nRoast: Medium\nPreparation: Cortado\nRating: 6/10\n---\n\n"
    );
}

#[test]
fn saving_to_an_empty_journal_is_as_saving_without_one() {
    let entry = first_entry();
    assert_eq!(journal_with_entry(&entry, Some("")), journal_with_entry(&entry, None));
    assert_eq!(prepend_entry("block\n", Some("")), prepend_entry("block\n", None));
}

#[test]
fn prepend_entry_joins_with_one_line_feed() {
    assert_eq!(prepend_entry("new\n---\n", None), "new\n---\n\n");
    assert_eq!(prepend_entry("new\n---\n", Some("old\n---\n\n")), "new\n---\n\nold\n---\n\n");
    assert_eq!(prepend_entry("", None), "\n");
    assert_eq!(prepend_entry("", Some("old")), "\nold");
    assert_eq!(prepend_entry("caf\u{e9}", Some("na\u{ef}ve")), "caf\u{e9}\nna\u{ef}ve");
}

#[test]
fn prepend_entry_keeps_all_earlier_content() {
    let mut journal: Option<String> = None;
    let mut blocks: Vec<String> = Vec::new();
    for rating in 1..=10u8 {
        let entry = CoffeeEntry::with_timestamp(
            Timestamp::new(2025, 1, rating as u32, 8, 0, 0).unwrap(),
            format!("Brand {}", rating),
            "Coffee".to_string(),
            "Origin".to_string(),
            ProcessingMethod::Washed,
            Roast::Medium,
            Preparation::Drip,
            rating,
        )
        .unwrap();
        let block = entry.to_plaintext();
        let content = prepend_entry(&block, journal.as_deref());
        assert!(content.starts_with(&block));
        assert!(content.ends_with(journal.as_deref().unwrap_or("")));
        assert_eq!(content.len(), block.len() + 1 + journal.as_deref().unwrap_or("").len());
        blocks.insert(0, block);
        journal = Some(content);
    }
    let expected: String = blocks.iter().map(|block| format!("{}\n", block)).collect();
    assert_eq!(journal.unwrap(), expected);
}
