use overbot::database::{
    check_ledger_row, same_bytes, ConnectionType, DatabaseConfig, LedgerRow, Migration, MigrationError,
    Migrations, DEFAULT_EMBEDDED_HOST,
};

fn hex(bytes: &[u8]) -> String {
    bytes.iter().map(|b| format!("{:02x}", b)).collect()
}

fn three() -> Migrations {
    Migrations::new(
        "Test".to_string(),
        vec![
            Migration::new("one".to_string()).sql("CREATE TABLE a ()".to_string(), "DROP TABLE a".to_string()),
            Migration::new("two".to_string()).up("CREATE TABLE b ()".to_string()).down("DROP TABLE b".to_string()),
            Migration::new("three".to_string()).sql("CREATE TABLE c ()".to_string(), "DROP TABLE c".to_string()),
        ],
    )
}

/// Applies what the plan says, the way a run records it, newest row first.
fn run(set: &Migrations, ledger: &mut Vec<LedgerRow>) -> Result<usize, MigrationError> {
    let start = set.plan(ledger)?;
    for version in start..set.migrations.len() {
        ledger.insert(0, set.ledger_row(version));
    }
    Ok(set.migrations.len() - start)
}

#[test]
fn checksum_of_empty_statements() {
    let m = Migration::new("nothing".to_string());
    assert_eq!(
        hex(&m.checksum()),
        "cf83e1357eefb8bdf1542850d66d8007d620e4050b5715dc83f4a921d36ce9ce47d0d13c5d85f2b0ff8318d2877eec2f63b931bd47417a81a538327af927da3e"
    );
}

#[test]
fn checksum_covers_forward_then_reverse() {
    let m = Migration::new("abc".to_string()).sql("ab".to_string(), "c".to_string());
    assert_eq!(m.checksum().len(), 64);
    assert_eq!(
        hex(&m.checksum()),
        "ddaf35a193617abacc417349ae20413112e6fa4e89a97ea20a9eeee64b55d39a2192992a274fc1a836ba3c23a3feebbd454d4423643ce80e2a9ac94fa54ca49f"
    );
    let swapped = Migration::new("abc".to_string()).sql("c".to_string(), "ab".to_string());
    assert_ne!(m.checksum(), swapped.checksum());
}

#[test]
fn builders_keep_the_other_fields() {
    let m = Migration::new("d".to_string()).up("u".to_string()).down("w".to_string());
    assert_eq!(m.description, "d");
    assert_eq!(m.sql_up, "u");
    assert_eq!(m.sql_down, "w");
}

#[test]
fn second_run_applies_nothing() {
    let set = three();
    let mut ledger = Vec::new();
    assert_eq!(run(&set, &mut ledger), Ok(3));
    assert_eq!(ledger.len(), 3);
    assert_eq!(ledger[0].version, 2);
    assert_eq!(ledger[2].version, 0);
    assert_eq!(run(&set, &mut ledger), Ok(0));
    assert_eq!(ledger.len(), 3);
}

#[test]
fn partial_ledger_applies_the_rest() {
    let set = three();
    let mut ledger = vec![set.ledger_row(0)];
    assert_eq!(set.plan(&ledger), Ok(1));
    assert_eq!(run(&set, &mut ledger), Ok(2));
    assert_eq!(set.plan(&ledger), Ok(3));
}

#[test]
fn edited_migration_is_refused() {
    let set = three();
    let mut ledger = Vec::new();
    run(&set, &mut ledger).unwrap();
    let mut edited = three();
    edited.migrations[1] = Migration::new("two".to_string()).sql("CREATE TABLE b (x int)".to_string(), "DROP TABLE b".to_string());
    let before = ledger.len();
    assert_eq!(run(&edited, &mut ledger), Err(MigrationError::ChecksumMismatch { version: 1 }));
    assert_eq!(ledger.len(), before);
}

#[test]
fn version_and_length_errors() {
    let set = three();
    let good = set.ledger_row(0);
    let short = LedgerRow { version: 0, checksum: vec![1, 2, 3] };
    assert_eq!(set.plan(&vec![short]), Err(MigrationError::InvalidChecksumLength { version: 0 }));
    let shifted = LedgerRow { version: 5, checksum: good.checksum.clone() };
    assert_eq!(set.plan(&vec![shifted]), Err(MigrationError::VersionMismatch { found: 5, expected: 0 }));
    assert_eq!(check_ledger_row(&good, 0, &set.migrations[0].checksum()), Ok(()));
    assert_eq!(
        check_ledger_row(&good, 0, &set.migrations[1].checksum()),
        Err(MigrationError::ChecksumMismatch { version: 0 })
    );
}

#[test]
fn empty_set_needs_no_transaction() {
    let empty = Migrations::new("IRC".to_string(), Vec::new());
    assert!(!empty.needs_transaction());
    assert_eq!(empty.plan(&Vec::new()), Ok(0));
    assert!(three().needs_transaction());
}

#[test]
fn extra_rows_are_ignored() {
    let set = three();
    let mut ledger = Vec::new();
    run(&set, &mut ledger).unwrap();
    let shorter = Migrations::new("Test".to_string(), vec![three().migrations[0].clone()]);
    assert_eq!(shorter.plan(&ledger), Ok(1));
}

#[test]
fn byte_comparison() {
    assert!(same_bytes(&vec![1, 2], &vec![1, 2]));
    assert!(!same_bytes(&vec![1, 2], &vec![1, 3]));
    assert!(!same_bytes(&vec![1], &vec![1, 2]));
}

#[test]
fn database_config_constructors() {
    let ext = DatabaseConfig::new_external(3, "postgres://db".to_string());
    assert_eq!(ext.max_connections, 3);
    assert_eq!(ext.pool_size(), 3);
    assert!(matches!(ext.connection, ConnectionType::External(ref u) if u == "postgres://db"));
    let emb = DatabaseConfig::new_embedded(5, "./".to_string(), 5433, "postgres".to_string(), "pw".to_string(), true, 5000, None);
    match emb.connection {
        ConnectionType::Embedded { root_path, port, username, password, persistent, start_timeout_ms, host } => {
            assert_eq!(root_path, "./");
            assert_eq!(port, 5433);
            assert_eq!(username, "postgres");
            assert_eq!(password, "pw");
            assert!(persistent);
            assert_eq!(start_timeout_ms, 5000);
            assert_eq!(host, DEFAULT_EMBEDDED_HOST);
            assert_eq!(host, "https://repo1.maven.org");
        }
        _ => panic!("expected an embedded connection"),
    }
    let custom = DatabaseConfig::new_embedded(1, "/d".to_string(), 1, "u".to_string(), "p".to_string(), false, 1, Some("http://mirror".to_string()));
    assert!(matches!(custom.connection, ConnectionType::Embedded { ref host, .. } if host == "http://mirror"));
}
