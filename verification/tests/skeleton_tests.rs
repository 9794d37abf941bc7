use unicode_skeleton::confusable;
use unicode_skeleton::default_table;
use unicode_skeleton::skeleton_of;
use unicode_skeleton::ConfusableEntry;
use unicode_skeleton::ConfusablesTable;
use unicode_skeleton::PrototypeCharsIterator;
use unicode_skeleton::SkeletonChars;
use unicode_skeleton::UnicodeSkeleton;

fn collect_skeleton(mut it: SkeletonChars) -> String {
    let mut s = String::new();
    while let Some(c) = it.next() {
        s.push(c);
    }
    s
}

#[test]
fn skeleton_char_cases() {
    let table = default_table().unwrap();
    assert_eq!(
        collect_skeleton("\u{0441}".skeleton_chars(&table)),
        "\u{0063}"
    );
    assert_eq!(
        collect_skeleton(
            "\u{1D52D}\u{1D4B6}\u{1EFF}\u{1D561}\u{1D552}\u{2113}".skeleton_chars(&table)
        ),
        "paypal"
    );
    assert_eq!(
        collect_skeleton("\u{211D}\u{1D4CA}\u{1D4C8}\u{1D4C9}".skeleton_chars(&table)),
        "Rust"
    );

    let letters: Vec<char> = vec!['\u{1D4B6}', '\u{1D4B7}', '\u{1D4B8}'];
    assert_eq!(collect_skeleton(letters.skeleton_chars(&table)), "abc");
}

#[test]
fn confusables() {
    let table = default_table().unwrap();
    assert!(confusable(&table, "\u{211D}\u{1D4CA}\u{1D4C8}\u{1D4C9}", "Rust"));
    assert!(!confusable(&table, "\u{211D}\u{1D4CA}\u{1D4C8}", "Rust"));
    assert!(!confusable(&table, "\u{211D}\u{1D4CA}\u{1D4C8}\u{1D4C9}", "Rus"));
    assert!(!confusable(&table, "Rast", "Rust"));
}

fn chars_of(s: &str) -> Vec<char> {
    s.chars().collect()
}

#[test]
fn skeleton_is_deterministic() {
    let table = default_table().unwrap();
    let input = chars_of("\u{211D}\u{1D4CA}\u{1D4C8}\u{1D4C9} and \u{0441}");
    let first = skeleton_of(&table, &input);
    let second = skeleton_of(&table, &input);
    assert_eq!(first, second);
}

#[test]
fn skeleton_is_idempotent() {
    let table = default_table().unwrap();
    for text in ["\u{211D}\u{1D4CA}\u{1D4C8}\u{1D4C9}", "p\u{0441}\u{2026}", "", "plain"] {
        let once = skeleton_of(&table, &chars_of(text));
        let twice = skeleton_of(&table, &once);
        assert_eq!(twice, once);
    }
}

#[test]
fn confusable_is_reflexive_and_symmetric() {
    let table = default_table().unwrap();
    let texts = ["\u{211D}\u{1D4CA}\u{1D4C8}\u{1D4C9}", "Rust", "Rast", ""];
    for a in texts {
        assert!(confusable(&table, a, a));
        for b in texts {
            assert_eq!(confusable(&table, a, b), confusable(&table, b, a));
        }
    }
}

#[test]
fn expansions_are_closed_under_lookup() {
    let table = default_table().unwrap();
    for c in ['\u{1D4CA}', '\u{211D}', '\u{2026}', '\u{FB01}', 'q', '\u{0441}'] {
        let mut it = PrototypeCharsIterator::new(&table, c);
        while let Some(out) = it.next() {
            assert!(table.lookup(out).is_none());
        }
    }
}

#[test]
fn expansion_of_unmapped_codepoint_is_itself() {
    let table = default_table().unwrap();
    for c in ['q', 'Z', '~', '\u{00E9}', '\u{4E2D}'] {
        let mut it = PrototypeCharsIterator::new(&table, c);
        assert_eq!(it.next(), Some(c));
        assert_eq!(it.next(), None);
        assert_eq!(it.next(), None);
    }
}

#[test]
fn expansion_of_mapped_codepoint_is_its_prototype() {
    let table = default_table().unwrap();
    let mut it = PrototypeCharsIterator::new(&table, '\u{2026}');
    assert_eq!(it.next(), Some('.'));
    assert_eq!(it.next(), Some('.'));
    assert_eq!(it.next(), Some('.'));
    assert_eq!(it.next(), None);
}

#[test]
fn skeleton_decomposes_precomposed_characters() {
    let table = default_table().unwrap();
    let skel = skeleton_of(&table, &chars_of("\u{00E9}"));
    assert_eq!(skel, vec!['e', '\u{0301}']);
}

#[test]
fn skeleton_expands_ligatures_and_leaders() {
    let table = default_table().unwrap();
    assert_eq!(
        collect_skeleton("\u{FB01}le\u{2026}".skeleton_chars(&table)),
        "file..."
    );
}

#[test]
fn lookup_finds_present_and_absent_keys() {
    let table = default_table().unwrap();
    let hit = table.lookup('\u{0441}').unwrap();
    assert_eq!(table.entries[hit].key, 0x0441);
    assert!(table.lookup('c').is_none());
    assert!(table.lookup('\u{0000}').is_none());
    assert!(table.lookup('\u{10FFFF}').is_none());
}

fn entry(key: u32, offset: u16) -> ConfusableEntry {
    ConfusableEntry { key, offset }
}

#[test]
fn table_construction_validates_invariants() {
    // A small valid table is accepted.
    let valid = ConfusablesTable::new(vec![entry(0x41, 0), entry(0x42, 2)], vec!['x', 'y', 'z']);
    assert!(valid.is_some());

    // Keys out of order.
    assert!(ConfusablesTable::new(vec![entry(0x42, 0), entry(0x41, 1)], vec!['x', 'y']).is_none());

    // Duplicate keys.
    assert!(ConfusablesTable::new(vec![entry(0x41, 0), entry(0x41, 1)], vec!['x', 'y']).is_none());

    // The first prototype must start at the beginning of the pool.
    assert!(ConfusablesTable::new(vec![entry(0x41, 1)], vec!['x', 'y']).is_none());

    // An empty prototype sequence is refused.
    assert!(ConfusablesTable::new(vec![entry(0x41, 0), entry(0x42, 0)], vec!['x']).is_none());

    // An offset past the pool's end is refused.
    assert!(ConfusablesTable::new(vec![entry(0x41, 0), entry(0x42, 5)], vec!['x', 'y']).is_none());

    // An empty table must have an empty pool.
    assert!(ConfusablesTable::new(vec![], vec!['x']).is_none());

    // A prototype character that is itself a key breaks the closure property.
    assert!(ConfusablesTable::new(vec![entry(0x41, 0), entry(0x79, 1)], vec!['x', 'y']).is_none());

    // An empty table is valid.
    assert!(ConfusablesTable::new(vec![], vec![]).is_some());
}

#[test]
fn produced_skeletons_are_free_of_table_keys() {
    let table = default_table().unwrap();
    assert!(table.contains_key_of(&chars_of("\u{0441}at")));
    assert!(!table.contains_key_of(&chars_of("cat")));
    for text in ["\u{211D}\u{1D4CA}\u{1D4C8}\u{1D4C9}", "p\u{0441}\u{2026}", "\u{00E9}"] {
        let skel = skeleton_of(&table, &chars_of(text));
        assert!(!table.contains_key_of(&skel));
    }
}

#[test]
fn skeleton_with_empty_table_only_decomposes() {
    let empty = ConfusablesTable::new(vec![], vec![]).unwrap();
    assert_eq!(
        collect_skeleton("\u{00E9}b\u{0441}".skeleton_chars(&empty)),
        "e\u{0301}b\u{0441}"
    );
}

#[test]
fn skeleton_chars_iteration_ends_with_none() {
    let table = default_table().unwrap();
    let mut it = "\u{0441}".skeleton_chars(&table);
    assert_eq!(it.next(), Some('c'));
    assert_eq!(it.next(), None);
    assert_eq!(it.next(), None);
}

#[test]
fn empty_input_has_empty_skeleton() {
    let table = default_table().unwrap();
    assert_eq!(skeleton_of(&table, &vec![]), Vec::<char>::new());
    assert!(confusable(&table, "", ""));
    assert!(!confusable(&table, "", "a"));
}
