//! Schema migrations: ordered, checksum-identified changes, each applied once,
//! and the configuration of the database connection.
use sha2::Digest;
use vstd::prelude::*;

verus! {

/// How many bytes a migration checksum has.
pub const CHECKSUM_LEN: usize = 64;

/// The SHA-512 digest of the bytes of `first` followed by those of `second`.
pub uninterp spec fn sha512_of(first: Seq<char>, second: Seq<char>) -> Seq<u8>;

/// Relies on `sha2::Sha512` (through `digest::Digest::chain` and `finalize`):
/// the digest of the two texts' bytes, one after the other, which is 64 bytes
/// long.
#[verifier::external_body]
fn sha512_digest(first: &str, second: &str) -> (r: Vec<u8>)
    ensures
        r@ == sha512_of(first@, second@),
        r@.len() == CHECKSUM_LEN,
{
    sha2::Sha512::default().chain(first.as_bytes()).chain(second.as_bytes()).finalize().to_vec()
}

/// One schema change: a description, the statement that applies it and the one
/// that undoes it.
#[derive(Debug, Clone)]
pub struct Migration {
    pub description: String,
    pub sql_up: String,
    pub sql_down: String,
}

/// The checksum of a migration: over its forward and reverse text.
pub open spec fn migration_checksum(m: Migration) -> Seq<u8> {
    sha512_of(m.sql_up@, m.sql_down@)
}

impl Migration {
    /// A migration with this description and no statements yet.
    pub fn new(description: String) -> (r: Migration)
        ensures
            r.description == description,
            r.sql_up@ == Seq::<char>::empty(),
            r.sql_down@ == Seq::<char>::empty(),
    {
        Migration { description, sql_up: String::new(), sql_down: String::new() }
    }

    /// The same migration with `sql_up` as its forward statement.
    pub fn up(self, sql_up: String) -> (r: Migration)
        ensures
            r.description == self.description,
            r.sql_up == sql_up,
            r.sql_down == self.sql_down,
    {
        Migration { sql_up, ..self }
    }

    /// The same migration with `sql_down` as its reverse statement.
    pub fn down(self, sql_down: String) -> (r: Migration)
        ensures
            r.description == self.description,
            r.sql_up == self.sql_up,
            r.sql_down == sql_down,
    {
        Migration { sql_down, ..self }
    }

    /// The same migration with both statements replaced.
    pub fn sql(self, sql_up: String, sql_down: String) -> (r: Migration)
        ensures
            r.description == self.description,
            r.sql_up == sql_up,
            r.sql_down == sql_down,
    {
        Migration { sql_up, sql_down, ..self }
    }

    /// The 64-byte checksum of the migration's forward and reverse statements.
    pub fn checksum(&self) -> (r: Vec<u8>)
        ensures
            r@ == migration_checksum(*self),
            r@.len() == CHECKSUM_LEN,
    {
        sha512_digest(self.sql_up.as_str(), self.sql_down.as_str())
    }
}

/// A named, ordered set of migrations; a migration's position is its version.
#[derive(Debug, Clone)]
pub struct Migrations {
    pub module: String,
    pub migrations: Vec<Migration>,
}

/// A ledger row as read back from the store: the version it records and the
/// checksum that was stored with it.
#[derive(Debug, Clone)]
pub struct LedgerRow {
    pub version: i64,
    pub checksum: Vec<u8>,
}

impl View for LedgerRow {
    type V = (i64, Seq<u8>);

    open spec fn view(&self) -> (i64, Seq<u8>) {
        (self.version, self.checksum@)
    }
}

/// The ways in which the ledger can disagree with the migrations defined.
#[derive(Debug, Clone, Copy, PartialEq, Eq, Structural)]
pub enum MigrationError {
    /// The stored checksum of this version is not 64 bytes long.
    InvalidChecksumLength { version: i64 },
    /// The ledger holds `found` where version `expected` belongs.
    VersionMismatch { found: i64, expected: i64 },
    /// The stored checksum of this version is not that of its migration.
    ChecksumMismatch { version: i64 },
}

/// The views of ledger rows.
pub open spec fn rows_view(rows: Seq<LedgerRow>) -> Seq<(i64, Seq<u8>)> {
    rows.map_values(|row: LedgerRow| row@)
}

/// Whether the ledger row `row` is the record of the migration at position
/// `version`, whose checksum is `expected`; the first disagreement otherwise.
pub open spec fn row_check(row: (i64, Seq<u8>), version: int, expected: Seq<u8>) -> Result<(), MigrationError> {
    if row.1.len() != CHECKSUM_LEN {
        Err(MigrationError::InvalidChecksumLength { version: row.0 })
    } else if row.0 != version {
        Err(MigrationError::VersionMismatch { found: row.0, expected: version as i64 })
    } else if row.1 != expected {
        Err(MigrationError::ChecksumMismatch { version: row.0 })
    } else {
        Ok(())
    }
}

/// The row that is compared with the migration at position `i`: the rows come
/// newest first, so the oldest is the last.
pub open spec fn oldest_first(rows: Seq<(i64, Seq<u8>)>, i: int) -> (i64, Seq<u8>) {
    rows[rows.len() - 1 - i]
}

/// Checks the rows against the migrations, whose checksums are `sums`, from
/// position `i` on; gives the position of the first migration without a row,
/// or the first disagreement.
pub open spec fn plan_from(sums: Seq<Seq<u8>>, rows: Seq<(i64, Seq<u8>)>, i: nat) -> Result<nat, MigrationError>
    decreases sums.len() - i,
{
    if i >= sums.len() || i >= rows.len() {
        Ok(i)
    } else {
        match row_check(oldest_first(rows, i as int), i as int, sums[i as int]) {
            Err(e) => Err(e),
            Ok(_) => plan_from(sums, rows, i + 1),
        }
    }
}

/// The checksums of the migrations, in order.
pub open spec fn checksums_of(migs: Seq<Migration>) -> Seq<Seq<u8>> {
    migs.map_values(|m: Migration| migration_checksum(m))
}

/// The byte strings, as values.
pub open spec fn sums_view(sums: Seq<Vec<u8>>) -> Seq<Seq<u8>> {
    sums.map_values(|v: Vec<u8>| v@)
}

/// What a migration run decides from the ledger rows (newest first): the
/// position from which the migrations are to be applied, or the error that
/// stops it before anything is applied.
pub open spec fn plan_spec(migs: Seq<Migration>, rows: Seq<(i64, Seq<u8>)>) -> Result<nat, MigrationError> {
    plan_from(checksums_of(migs), rows, 0)
}

/// A plan as an executable value, read as a spec value.
pub open spec fn plan_view(r: Result<usize, MigrationError>) -> Result<nat, MigrationError> {
    match r {
        Ok(start) => Ok(start as nat),
        Err(e) => Err(e),
    }
}

/// The ledger (newest first) after the migrations from `start` on were applied
/// and recorded on top of `rows`.
pub open spec fn recorded_rows(migs: Seq<Migration>, rows: Seq<(i64, Seq<u8>)>, start: nat) -> Seq<(i64, Seq<u8>)> {
    Seq::new(
        (migs.len() - start) as nat,
        |j: int| ((migs.len() - 1 - j) as i64, migration_checksum(migs[migs.len() - 1 - j])),
    ) + rows
}

/// The ledger after one run of the migrations against `rows`.
pub open spec fn ledger_after_run(migs: Seq<Migration>, rows: Seq<(i64, Seq<u8>)>) -> Seq<(i64, Seq<u8>)> {
    match plan_spec(migs, rows) {
        Ok(start) => recorded_rows(migs, rows, start),
        Err(_) => rows,
    }
}

/// How many migrations one run against `rows` applies.
pub open spec fn applied_by_run(migs: Seq<Migration>, rows: Seq<(i64, Seq<u8>)>) -> nat {
    match plan_spec(migs, rows) {
        Ok(start) => if start <= migs.len() { (migs.len() - start) as nat } else { 0 },
        Err(_) => 0,
    }
}

/// Whether two byte strings are equal.
pub fn same_bytes(a: &Vec<u8>, b: &Vec<u8>) -> (r: bool)
    ensures
        r == (a@ == b@),
{
    if a.len() != b.len() {
        return false;
    }
    let mut i: usize = 0;
    while i < a.len()
        invariant
            a@.len() == b@.len(),
            0 <= i <= a@.len(),
            forall|j: int| 0 <= j < i ==> a@[j] == b@[j],
        decreases a@.len() - i,
    {
        if a[i] != b[i] {
            return false;
        }
        i += 1;
    }
    assert(a@ =~= b@);
    true
}

/// Checks one ledger row against the migration at position `version`, whose
/// checksum is `expected`.
pub fn check_ledger_row(row: &LedgerRow, version: usize, expected: &Vec<u8>) -> (r: Result<(), MigrationError>)
    requires
        version <= i64::MAX,
    ensures
        r == row_check(row@, version as int, expected@),
{
    if row.checksum.len() != CHECKSUM_LEN {
        Err(MigrationError::InvalidChecksumLength { version: row.version })
    } else if row.version != version as i64 {
        Err(MigrationError::VersionMismatch { found: row.version, expected: version as i64 })
    } else if !same_bytes(&row.checksum, expected) {
        Err(MigrationError::ChecksumMismatch { version: row.version })
    } else {
        Ok(())
    }
}

/// Decides a run of migrations whose checksums are `sums` from the ledger
/// rows, newest first: the position from which the migrations are to be
/// applied, or the first disagreement between the rows and the checksums.
pub fn plan_against(sums: &Vec<Vec<u8>>, rows: &Vec<LedgerRow>) -> (r: Result<usize, MigrationError>)
    requires
        sums@.len() <= i64::MAX,
    ensures
        plan_view(r) == plan_from(sums_view(sums@), rows_view(rows@), 0),
        r matches Ok(start) ==> start <= sums@.len(),
{
    let n = sums.len();
    let m = rows.len();
    let ghost rv = rows_view(rows@);
    let ghost sv = sums_view(sums@);
    let mut i: usize = 0;
    while i < n && i < m
        invariant
            n == sums@.len(),
            m == rows@.len(),
            rv == rows_view(rows@),
            sv == sums_view(sums@),
            n <= i64::MAX,
            i <= n,
            plan_from(sv, rv, 0) == plan_from(sv, rv, i as nat),
        decreases n - i,
    {
        let row = &rows[m - 1 - i];
        assert(rv[m - 1 - i] == row@);
        assert(sv[i as int] == sums@[i as int]@);
        match check_ledger_row(row, i, &sums[i]) {
            Err(e) => {
                return Err(e);
            },
            Ok(()) => {},
        }
        i += 1;
    }
    Ok(i)
}

impl Migrations {
    /// A named set of migrations, in the order of their versions.
    pub fn new(module: String, migrations: Vec<Migration>) -> (r: Migrations)
        ensures
            r.module == module,
            r.migrations == migrations,
    {
        Migrations { module, migrations }
    }

    /// Whether a run has anything to do: an empty set opens no transaction.
    pub fn needs_transaction(&self) -> (r: bool)
        ensures
            r == (self.migrations@.len() > 0),
    {
        self.migrations.len() > 0
    }

    /// The checksums of the migrations, in order.
    pub fn checksums(&self) -> (r: Vec<Vec<u8>>)
        ensures
            sums_view(r@) == checksums_of(self.migrations@),
    {
        let mut sums: Vec<Vec<u8>> = Vec::new();
        let mut i: usize = 0;
        while i < self.migrations.len()
            invariant
                i <= self.migrations@.len(),
                sums@.len() == i,
                sums_view(sums@) == checksums_of(self.migrations@).subrange(0, i as int),
            decreases self.migrations@.len() - i,
        {
            let sum = self.migrations[i].checksum();
            let ghost prev = sums@;
            sums.push(sum);
            assert(sums@ == prev.push(sum));
            assert(sums_view(sums@).len() == i + 1);
            assert forall|j: int| 0 <= j < i + 1 implies sums_view(sums@)[j] == checksums_of(self.migrations@)[j] by {
                if j < i {
                    assert(sums@[j] == prev[j]);
                    assert(sums_view(prev)[j] == checksums_of(self.migrations@).subrange(0, i as int)[j]);
                } else {
                    assert(sums@[j] == sum);
                }
            }
            i += 1;
            assert(sums_view(sums@) =~= checksums_of(self.migrations@).subrange(0, i as int));
        }
        assert(checksums_of(self.migrations@).subrange(0, i as int) =~= checksums_of(self.migrations@));
        sums
    }

    /// Decides a run from the ledger rows of this module, newest first: the
    /// rows there are must record the first migrations, version for version
    /// and checksum for checksum; the migrations from the returned position on
    /// are then to be applied, in order. Any disagreement stops the run.
    pub fn plan(&self, rows: &Vec<LedgerRow>) -> (r: Result<usize, MigrationError>)
        requires
            self.migrations@.len() <= i64::MAX,
        ensures
            plan_view(r) == plan_spec(self.migrations@, rows_view(rows@)),
            r matches Ok(start) ==> start <= self.migrations@.len(),
    {
        plan_against(&self.checksums(), rows)
    }

    /// The ledger row that records the migration at position `version`.
    pub fn ledger_row(&self, version: usize) -> (r: LedgerRow)
        requires
            version < self.migrations@.len(),
            self.migrations@.len() <= i64::MAX,
        ensures
            r@ == (version as i64, migration_checksum(self.migrations@[version as int])),
    {
        LedgerRow { version: version as i64, checksum: self.migrations[version].checksum() }
    }
}

/// Whether every migration's checksum has the width that checksums have.
pub open spec fn checksums_well_formed(migs: Seq<Migration>) -> bool {
    forall|i: int| 0 <= i < migs.len() ==> (#[trigger] migration_checksum(migs[i])).len() == CHECKSUM_LEN
}

proof fn lemma_recorded_rows_check(migs: Seq<Migration>, i: nat)
    requires
        migs.len() <= i64::MAX,
        checksums_well_formed(migs),
        i <= migs.len(),
    ensures
        plan_from(checksums_of(migs), recorded_rows(migs, Seq::empty(), 0), i) == Ok::<nat, MigrationError>(migs.len()),
    decreases migs.len() - i,
{
    let rows = recorded_rows(migs, Seq::empty(), 0);
    assert(rows.len() == migs.len());
    if i < migs.len() {
        let row = oldest_first(rows, i as int);
        assert(row == (i as i64, migration_checksum(migs[i as int])));
        assert(migration_checksum(migs[i as int]).len() == CHECKSUM_LEN);
        lemma_recorded_rows_check(migs, i + 1);
    }
}

/// Running the migrations against an empty ledger applies all of them, and a
/// second run against the ledger that the first one left applies none: every
/// row is found, version and checksum matching.
pub proof fn lemma_second_run_applies_nothing(migs: Seq<Migration>)
    requires
        migs.len() <= i64::MAX,
        checksums_well_formed(migs),
    ensures
        plan_spec(migs, Seq::empty()) == Ok::<nat, MigrationError>(0),
        applied_by_run(migs, Seq::empty()) == migs.len(),
        plan_spec(migs, ledger_after_run(migs, Seq::empty())) == Ok::<nat, MigrationError>(migs.len()),
        applied_by_run(migs, ledger_after_run(migs, Seq::empty())) == 0,
        ledger_after_run(migs, ledger_after_run(migs, Seq::empty())) == ledger_after_run(migs, Seq::empty()),
{
    let empty = Seq::<(i64, Seq<u8>)>::empty();
    assert(plan_spec(migs, empty) == Ok::<nat, MigrationError>(0));
    let first = ledger_after_run(migs, empty);
    assert(first == recorded_rows(migs, empty, 0));
    lemma_recorded_rows_check(migs, 0);
    let tail = Seq::new(
        (migs.len() - migs.len()) as nat,
        |j: int| ((migs.len() - 1 - j) as i64, migration_checksum(migs[migs.len() - 1 - j])),
    );
    assert(tail.len() == 0);
    assert(recorded_rows(migs, first, migs.len()) =~= first);
}

proof fn lemma_changed_checksum_stops(old_migs: Seq<Migration>, new_migs: Seq<Migration>, k: nat, i: nat)
    requires
        old_migs.len() <= i64::MAX,
        new_migs.len() == old_migs.len(),
        checksums_well_formed(old_migs),
        k < old_migs.len(),
        i <= k,
        migration_checksum(new_migs[k as int]) != migration_checksum(old_migs[k as int]),
        forall|j: int| 0 <= j < k ==> migration_checksum(#[trigger] new_migs[j]) == migration_checksum(old_migs[j]),
    ensures
        plan_from(checksums_of(new_migs), recorded_rows(old_migs, Seq::empty(), 0), i)
            == Err::<nat, MigrationError>(MigrationError::ChecksumMismatch { version: k as i64 }),
    decreases k - i,
{
    let rows = recorded_rows(old_migs, Seq::empty(), 0);
    let row = oldest_first(rows, i as int);
    assert(row == (i as i64, migration_checksum(old_migs[i as int])));
    assert(migration_checksum(old_migs[i as int]).len() == CHECKSUM_LEN);
    if i < k {
        assert(migration_checksum(new_migs[i as int]) == migration_checksum(old_migs[i as int]));
        lemma_changed_checksum_stops(old_migs, new_migs, k, i + 1);
    }
}

/// When the checksum of an applied migration changes (its statements were
/// edited), a run against the ledger of the old set fails with a checksum
/// mismatch at that version, applies nothing and leaves the ledger as it was;
/// `k` is the first position whose checksum changed.
pub proof fn lemma_edited_migration_is_refused(old_migs: Seq<Migration>, new_migs: Seq<Migration>, k: nat)
    requires
        old_migs.len() <= i64::MAX,
        new_migs.len() == old_migs.len(),
        checksums_well_formed(old_migs),
        k < old_migs.len(),
        migration_checksum(new_migs[k as int]) != migration_checksum(old_migs[k as int]),
        forall|j: int| 0 <= j < k ==> migration_checksum(#[trigger] new_migs[j]) == migration_checksum(old_migs[j]),
    ensures
        plan_spec(new_migs, ledger_after_run(old_migs, Seq::empty()))
            == Err::<nat, MigrationError>(MigrationError::ChecksumMismatch { version: k as i64 }),
        applied_by_run(new_migs, ledger_after_run(old_migs, Seq::empty())) == 0,
        ledger_after_run(new_migs, ledger_after_run(old_migs, Seq::empty())) == ledger_after_run(old_migs, Seq::empty()),
{
    let empty = Seq::<(i64, Seq<u8>)>::empty();
    assert(plan_spec(old_migs, empty) == Ok::<nat, MigrationError>(0));
    assert(ledger_after_run(old_migs, empty) == recorded_rows(old_migs, empty, 0));
    lemma_changed_checksum_stops(old_migs, new_migs, k, 0);
}

/// Where the embedded database fetches its binaries when no host is given.
pub const DEFAULT_EMBEDDED_HOST: &'static str = "https://repo1.maven.org";

/// How the database is reached: an external server by URI, or an embedded
/// server run from a local directory.
#[derive(Debug, Clone)]
pub enum ConnectionType {
    External(String),
    Embedded {
        root_path: String,
        port: i16,
        username: String,
        password: String,
        persistent: bool,
        start_timeout_ms: u64,
        host: String,
    },
}

/// The database settings of the system.
#[derive(Debug, Clone)]
pub struct DatabaseConfig {
    pub connection: ConnectionType,
    pub max_connections: u8,
}

/// The host of an embedded server: the one given, else the default.
pub open spec fn host_or_default(host: Option<String>) -> Seq<char> {
    match host {
        Some(h) => h@,
        None => DEFAULT_EMBEDDED_HOST@,
    }
}

/// The embedded connection that the given settings describe.
pub fn embedded_connection(
    root_path: String,
    port: i16,
    username: String,
    password: String,
    persistent: bool,
    start_timeout_ms: u64,
    host: Option<String>,
) -> (r: ConnectionType)
    ensures
        r matches ConnectionType::Embedded { root_path: rp, port: p, username: u, password: pw, persistent: ps, start_timeout_ms: t, host: h }
            && rp == root_path && p == port && u == username && pw == password && ps == persistent
            && t == start_timeout_ms && h@ == host_or_default(host),
{
    let host = match host {
        Some(h) => h,
        None => DEFAULT_EMBEDDED_HOST.to_owned(),
    };
    ConnectionType::Embedded { root_path, port, username, password, persistent, start_timeout_ms, host }
}

impl DatabaseConfig {
    /// Settings for an embedded server.
    pub fn new_embedded(
        max_connections: u8,
        root_path: String,
        port: i16,
        username: String,
        password: String,
        persistent: bool,
        start_timeout_ms: u64,
        host: Option<String>,
    ) -> (r: DatabaseConfig)
        ensures
            r.max_connections == max_connections,
            r.connection matches ConnectionType::Embedded { root_path: rp, port: p, username: u, password: pw, persistent: ps, start_timeout_ms: t, host: h }
                && rp == root_path && p == port && u == username && pw == password && ps == persistent
                && t == start_timeout_ms && h@ == host_or_default(host),
    {
        let connection = embedded_connection(root_path, port, username, password, persistent, start_timeout_ms, host);
        DatabaseConfig { connection, max_connections }
    }

    /// Settings for an external server reached by `uri`.
    pub fn new_external(max_connections: u8, uri: String) -> (r: DatabaseConfig)
        ensures
            r.max_connections == max_connections,
            r.connection == ConnectionType::External(uri),
    {
        DatabaseConfig { connection: ConnectionType::External(uri), max_connections }
    }

    /// The size of the connection pool.
    pub fn pool_size(&self) -> (r: u32)
        ensures
            r == self.max_connections as u32,
    {
        self.max_connections as u32
    }
}

} // verus!
