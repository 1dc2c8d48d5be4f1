use gh_bofh_lib::{classic_table, modern_table, random_classic, random_modern};

#[test]
fn test_random_classic() {
    let excuse: &'static str = random_classic();
    assert_ne!(excuse, "No excuse found, try again later");
}

#[test]
fn test_random_modern() {
    let excuse: &'static str = random_modern();
    assert_ne!(
        excuse,
        "Excuse engine not initialized. Please try again later."
    );
}

#[test]
fn classic_excuses_are_nonempty() {
    assert!(
        !classic_table().is_empty(),
        "CLASSIC array must contain at least one excuse"
    );
}

#[test]
fn modern_excuses_are_nonempty() {
    assert!(
        !modern_table().is_empty(),
        "MODERN array must contain at least one excuse"
    );
}

#[test]
fn all_classic_excuses_are_nonempty_strings() {
    for (idx, excuse) in classic_table().iter().enumerate() {
        assert!(!excuse.is_empty(), "CLASSIC[{idx}] is an empty string");
        assert!(
            excuse.len() < 1000,
            "CLASSIC[{}] is suspiciously long ({} bytes)",
            idx,
            excuse.len()
        );
    }
}

#[test]
fn all_modern_excuses_are_nonempty_strings() {
    for (idx, excuse) in modern_table().iter().enumerate() {
        assert!(!excuse.is_empty(), "MODERN[{idx}] is an empty string");
        assert!(
            excuse.len() < 1000,
            "MODERN[{}] is suspiciously long ({} bytes)",
            idx,
            excuse.len()
        );
    }
}

#[test]
fn random_classic_never_returns_fallback() {
    for _ in 0..100 {
        let excuse = random_classic();
        assert_ne!(
            excuse, "No excuse found, try again later",
            "random_classic() returned fallback string (indicates empty array)"
        );
    }
}

#[test]
fn random_modern_never_returns_fallback() {
    for _ in 0..100 {
        let excuse = random_modern();
        assert_ne!(
            excuse, "Excuse engine not initialized. Please try again later.",
            "random_modern() returned fallback string (indicates empty array)"
        );
    }
}

#[test]
fn array_indexing_does_not_overflow() {
    for _ in 0..1000 {
        let _ = random_classic();
        let _ = random_modern();
    }
}

#[test]
fn random_classic_returns_table_entry() {
    let table = classic_table();
    for _ in 0..100 {
        let excuse = random_classic();
        assert!(
            table.contains(&excuse),
            "random_classic() returned unknown excuse: {}",
            excuse
        );
    }
}

#[test]
fn random_modern_returns_table_entry() {
    let table = modern_table();
    for _ in 0..100 {
        let excuse = random_modern();
        assert!(
            table.contains(&excuse),
            "random_modern() returned unknown excuse: {}",
            excuse
        );
    }
}

#[test]
fn tables_have_the_authored_sizes() {
    assert_eq!(classic_table().len(), 40);
    assert_eq!(modern_table().len(), 15);
}

#[test]
fn tables_hold_no_sentinel() {
    for excuse in classic_table() {
        assert_ne!(excuse, "No excuse found, try again later");
    }
    for excuse in modern_table() {
        assert_ne!(
            excuse,
            "Excuse engine not initialized. Please try again later."
        );
    }
}
