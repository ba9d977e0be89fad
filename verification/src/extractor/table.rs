//! The pipeline of one table: a state machine that is told what happened
//! and answers with what to do next.
//!
//! The pipeline touches no connection. Whoever drives it performs each
//! [`Action`] on the source or the target and reports the result as an
//! [`Event`] to [`TableExtractor::extract`].

use crate::config::MigrateTableConfig;
use crate::extractor::{ExtractorError, Failure};
use crate::transformer::{TransformError, Transformer};
use crate::value::{
    decoding, protocol_error, Decoded, Decoding, MysqlValueDecoded, RawValue, ValueError,
};
use vstd::prelude::*;
use vstd::string::StringExecFns;

verus! {

/// Asks the information schema for the columns of one table of the current
/// database, in their order; the table name is the one bound parameter.
pub const SELECT_COLUMNS_FOR_INSERT: &'static str =
    "SELECT `COLUMN_NAME` AS `Field`, `COLUMN_TYPE` AS `Type`, `IS_NULLABLE` AS `Null`, `COLUMN_KEY` AS `Key`, `COLUMN_DEFAULT` AS `Default`, `EXTRA` AS `Extra`, `COLUMN_COMMENT` AS `Comment` FROM `INFORMATION_SCHEMA`.`COLUMNS` WHERE TABLE_SCHEMA = DATABASE() AND TABLE_NAME = ?";

/// Switches foreign key checks off for the session that runs it.
pub const DISABLE_KEY_CHECKS: &'static str = "SET FOREIGN_KEY_CHECKS=0";

/// Where a pipeline stands.
#[derive(Debug, Clone, Copy, PartialEq, Eq, Structural)]
pub enum Phase {
    /// Not started.
    Idle,
    /// Schema copy: waiting for the session on the target.
    Acquire,
    /// Schema copy: foreign key checks are being switched off.
    DisableKeyChecks,
    /// Schema copy: the table is being dropped on the target.
    DropTable,
    /// Schema copy: the source is asked for the table's definition.
    FetchDefinition,
    /// Schema copy: the table is being created on the target.
    CreateTable,
    /// The source is asked for the table's columns.
    ColumnDiscovery,
    /// Waiting for the next row of the source.
    Streaming,
    /// Streaming: a full batch is being inserted.
    Inserting,
    /// The stream has ended; the last rows are being inserted.
    Flush,
    /// The table has been migrated.
    Done,
    /// The migration of the table has failed.
    Failed,
}

/// The stages of a pipeline, each a group of phases.
#[derive(Debug, Clone, Copy, PartialEq, Eq, Structural)]
pub enum Stage {
    /// The table is made on the target as it is on the source.
    SchemaCopy,
    /// The names of the columns are fetched.
    ColumnDiscovery,
    /// Rows are read, and inserted whenever a batch is full.
    Streaming,
    /// The rows behind the last full batch are inserted.
    Flush,
    Done,
    Failed,
}

impl Phase {
    /// Whether the pipeline has ended.
    pub open spec fn is_terminal(self) -> bool {
        self is Done || self is Failed
    }

    /// The stage that the phase belongs to.
    pub open spec fn spec_stage(self) -> Stage {
        match self {
            Phase::Idle
            | Phase::Acquire
            | Phase::DisableKeyChecks
            | Phase::DropTable
            | Phase::FetchDefinition
            | Phase::CreateTable => Stage::SchemaCopy,
            Phase::ColumnDiscovery => Stage::ColumnDiscovery,
            Phase::Streaming | Phase::Inserting => Stage::Streaming,
            Phase::Flush => Stage::Flush,
            Phase::Done => Stage::Done,
            Phase::Failed => Stage::Failed,
        }
    }

    /// The stage that the phase belongs to.
    #[verifier::when_used_as_spec(spec_stage)]
    pub fn stage(self) -> (stage: Stage)
        ensures
            stage == self.spec_stage(),
    {
        match self {
            Phase::Idle => Stage::SchemaCopy,
            Phase::Acquire => Stage::SchemaCopy,
            Phase::DisableKeyChecks => Stage::SchemaCopy,
            Phase::DropTable => Stage::SchemaCopy,
            Phase::FetchDefinition => Stage::SchemaCopy,
            Phase::CreateTable => Stage::SchemaCopy,
            Phase::ColumnDiscovery => Stage::ColumnDiscovery,
            Phase::Streaming => Stage::Streaming,
            Phase::Inserting => Stage::Streaming,
            Phase::Flush => Stage::Flush,
            Phase::Done => Stage::Done,
            Phase::Failed => Stage::Failed,
        }
    }
}

/// What happened to the last action.
#[derive(Debug)]
pub enum Event {
    /// Nothing yet: the pipeline is to begin.
    Start,
    /// The action was carried out and has nothing to report.
    Completed,
    /// The statement that creates the table, as the source gives it.
    Definition(String),
    /// The names of the table's columns, in their order.
    Columns(Vec<String>),
    /// The next row of the table.
    Row(Vec<RawValue>),
    /// The table has no more rows.
    EndOfStream,
    /// The action failed on its connection.
    Failed(sqlx::Error),
}

/// What the driver of a pipeline is to do next.
#[derive(Debug)]
pub enum Action {
    /// Take a session on the target and keep it until the pipeline ends;
    /// every later statement for the target runs on it.
    AcquireTarget,
    /// Run the statement on the target.
    Execute(String),
    /// Run the statement on the source and report the second column of
    /// its one row as `Event::Definition`.
    FetchDefinition(String),
    /// Run the query on the source with the table name as its parameter
    /// and report the column `Field` of its rows as `Event::Columns`.
    FetchColumns { query: String, table: String },
    /// Open a cursor for the query on the source and report its first row.
    OpenCursor(String),
    /// Report the next row of the cursor.
    NextRow,
    /// Insert the rows into the target with one statement, which begins
    /// with `statement` and binds every value of every row.
    Insert { statement: String, rows: Vec<Vec<MysqlValueDecoded>> },
    /// The pipeline has ended: the table is migrated.
    Succeed,
    /// The pipeline has ended with this error.
    Fail(ExtractorError),
    /// The pipeline had ended before.
    Nothing,
}

/// A transformer that left a value as it was.
#[derive(Debug, Clone, Copy, PartialEq, Eq, Structural)]
pub struct TransformWarning {
    /// The position of the cell in its row.
    pub column: usize,
    pub error: TransformError,
}

/// The mathematical value of an [`Action`].
pub enum Effect {
    AcquireTarget,
    Execute(Seq<char>),
    FetchDefinition(Seq<char>),
    FetchColumns { query: Seq<char>, table: Seq<char> },
    OpenCursor(Seq<char>),
    NextRow,
    Insert { statement: Seq<char>, rows: Seq<Seq<Decoded>> },
    Succeed,
    Fail(Failure),
    Nothing,
}

/// The characters of each of a list of strings.
pub open spec fn names(columns: Seq<String>) -> Seq<Seq<char>> {
    Seq::new(columns.len(), |i: int| columns[i]@)
}

/// The values of a row.
pub open spec fn row_view(row: Seq<MysqlValueDecoded>) -> Seq<Decoded> {
    Seq::new(row.len(), |i: int| row[i]@)
}

/// The values of a list of rows.
pub open spec fn rows_view(rows: Seq<Vec<MysqlValueDecoded>>) -> Seq<Seq<Decoded>> {
    Seq::new(rows.len(), |i: int| row_view(rows[i]@))
}

impl Action {
    /// Whether the action is the one that an effect stands for.
    pub open spec fn performs(&self, effect: Effect) -> bool {
        match effect {
            Effect::AcquireTarget => self is AcquireTarget,
            Effect::Execute(sql) => self matches Action::Execute(s) && s@ == sql,
            Effect::FetchDefinition(sql) => self matches Action::FetchDefinition(s) && s@ == sql,
            Effect::FetchColumns { query, table } => self matches Action::FetchColumns {
                query: q,
                table: t,
            } && q@ == query && t@ == table,
            Effect::OpenCursor(sql) => self matches Action::OpenCursor(s) && s@ == sql,
            Effect::NextRow => self is NextRow,
            Effect::Insert { statement, rows } => self matches Action::Insert {
                statement: s,
                rows: r,
            } && s@ == statement && rows_view(r@) == rows,
            Effect::Succeed => self is Succeed,
            Effect::Fail(failure) => self matches Action::Fail(err) && err.reports(failure),
            Effect::Nothing => self is Nothing,
        }
    }
}

/// `DROP TABLE IF EXISTS` for a table.
pub open spec fn drop_statement(name: Seq<char>) -> Seq<char> {
    "DROP TABLE IF EXISTS `"@ + name + "`"@
}

/// `SHOW CREATE TABLE` for a table.
pub open spec fn show_create_statement(name: Seq<char>) -> Seq<char> {
    "SHOW CREATE TABLE `"@ + name + "`"@
}

/// The query for all rows of a table.
pub open spec fn select_statement(name: Seq<char>) -> Seq<char> {
    "SELECT * FROM `"@ + name + "`"@
}

/// The beginning of an insert into a table, up to where the rows follow.
pub open spec fn insert_statement(name: Seq<char>) -> Seq<char> {
    "INSERT INTO `"@ + name + "`"@
}

/// A statement that ends in the quoted name of a table.
fn quoted(prefix: &str, name: &str) -> (statement: String)
    ensures
        statement@ == prefix@ + name@ + "`"@,
{
    let mut statement = String::from_str(prefix);
    statement.append(name);
    statement.append("`");
    statement
}

/// The transformer of the cell at position `i` of a row: the one that the
/// settings give for the name of the column at that position.
pub open spec fn column_transformer(
    columns: Seq<Seq<char>>,
    transformers: Map<Seq<char>, Transformer>,
    i: int,
) -> Option<Transformer> {
    if 0 <= i < columns.len() && transformers.contains_key(columns[i]) {
        Some(transformers[columns[i]])
    } else {
        None
    }
}

/// What the first cells of a row come to.
pub struct RowOutcome {
    /// The cells, decoded and transformed, up to the first that failed.
    pub values: Seq<Decoded>,
    /// The transformers that left their cell as it was.
    pub warnings: Seq<TransformWarning>,
    /// Why the first cell that has no decoding has none.
    pub failure: Option<Failure>,
}

/// The first `n` cells of a row, each decoded and then rewritten by the
/// transformer of its column. The first cell that cannot be decoded ends
/// the row.
pub open spec fn row_outcome(
    cells: Seq<RawValue>,
    columns: Seq<Seq<char>>,
    transformers: Map<Seq<char>, Transformer>,
    n: nat,
) -> RowOutcome
    decreases n,
{
    if n == 0 || n > cells.len() {
        RowOutcome { values: Seq::empty(), warnings: Seq::empty(), failure: None }
    } else {
        let before = row_outcome(cells, columns, transformers, (n - 1) as nat);
        if before.failure is Some {
            before
        } else {
            match decoding(cells[n - 1].declared_type@, cells[n - 1].content) {
                Decoding::Value(value) => match column_transformer(columns, transformers, n - 1) {
                    None => RowOutcome { values: before.values.push(value), ..before },
                    Some(t) => RowOutcome {
                        values: before.values.push(t.transformed(value)),
                        warnings: match t.warning(value) {
                            Some(error) => before.warnings.push(
                                TransformWarning { column: (n - 1) as usize, error },
                            ),
                            None => before.warnings,
                        },
                        failure: None,
                    },
                },
                Decoding::InvalidType(name) => RowOutcome {
                    failure: Some(Failure::InvalidType(name)),
                    ..before
                },
                Decoding::DriverError(err) => RowOutcome {
                    failure: Some(Failure::Decode(err)),
                    ..before
                },
                Decoding::Mismatch => RowOutcome { failure: Some(Failure::Mismatch), ..before },
            }
        }
    }
}

/// Once a cell has failed, the cells behind it change nothing.
pub proof fn lemma_failure_ends_row(
    cells: Seq<RawValue>,
    columns: Seq<Seq<char>>,
    transformers: Map<Seq<char>, Transformer>,
    k: nat,
    n: nat,
)
    requires
        k <= n <= cells.len(),
        row_outcome(cells, columns, transformers, k).failure is Some,
    ensures
        row_outcome(cells, columns, transformers, n) == row_outcome(
            cells,
            columns,
            transformers,
            k,
        ),
    decreases n,
{
    if k < n {
        lemma_failure_ends_row(cells, columns, transformers, k, (n - 1) as nat);
    }
}

/// Decodes the cells of a row and applies to each the transformer of its
/// column. Transformers that left their cell unchanged are added to
/// `warnings`.
#[verifier::loop_isolation(false)]
pub fn decode_row(
    cells: Vec<RawValue>,
    columns: &Vec<String>,
    config: &MigrateTableConfig,
    warnings: &mut Vec<TransformWarning>,
) -> (r: Result<Vec<MysqlValueDecoded>, ValueError>)
    ensures
        final(warnings)@ == old(warnings)@ + row_outcome(
            cells@,
            names(columns@),
            config.transformers@,
            cells@.len(),
        ).warnings,
        match row_outcome(cells@, names(columns@), config.transformers@, cells@.len()).failure {
            None => r matches Ok(values) && row_view(values@) == row_outcome(
                cells@,
                names(columns@),
                config.transformers@,
                cells@.len(),
            ).values,
            Some(failure) => r matches Err(err) && ExtractorError::ValueError(err).reports(
                failure,
            ),
        },
{
    let ghost all = cells@;
    assert(all.len() == cells.len());
    let ghost seen = warnings@;
    let ghost cols = names(columns@);
    let ghost rules = config.transformers@;
    let mut values: Vec<MysqlValueDecoded> = Vec::new();
    let mut i: usize = 0;
    for cell in it: cells
        invariant
            it.seq() == all,
            all.len() <= usize::MAX,
            i == it.index(),
            row_outcome(all, cols, rules, i as nat).failure is None,
            row_view(values@) == row_outcome(all, cols, rules, i as nat).values,
            warnings@ == seen + row_outcome(all, cols, rules, i as nat).warnings,
    {
        assert(cell == all[i as int]);
        let ghost after = row_outcome(all, cols, rules, (i + 1) as nat);
        match MysqlValueDecoded::try_from(cell) {
            Err(err) => {
                proof {
                    lemma_failure_ends_row(all, cols, rules, (i + 1) as nat, all.len());
                }
                return Err(err);
            },
            Ok(decoded) => {
                let mut rewritten = decoded;
                if i < columns.len() {
                    assert(cols[i as int] == columns@[i as int]@);
                    match config.transformer(columns[i].as_str()) {
                        Some(transformer) => {
                            let (out, warning) = transformer.try_transform(rewritten);
                            rewritten = out;
                            match warning {
                                Some(error) => {
                                    warnings.push(TransformWarning { column: i, error });
                                },
                                None => {},
                            }
                        },
                        None => {},
                    }
                }
                values.push(rewritten);
                assert(row_view(values@) =~= after.values);
                assert(warnings@ =~= seen + after.warnings);
                i = i + 1;
            },
        }
    }
    Ok(values)
}

/// The characters of a file name that may be missing.
pub open spec fn outfile_view(outfile: Option<String>) -> Option<Seq<char>> {
    match outfile {
        Some(name) => Some(name@),
        None => None,
    }
}

/// The mathematical value of a [`TableExtractor`]: its table, all of its
/// settings, and how far it has come.
pub struct Pipeline {
    /// The table.
    pub name: Seq<char>,
    /// Rows per insert statement.
    pub batch_size: usize,
    /// Whether only the definition of the table is copied.
    pub skip_data: bool,
    /// The file to write to in place of the target, where one is set.
    pub outfile: Option<Seq<char>>,
    /// The transformer of each column that has one.
    pub transformers: Map<Seq<char>, Transformer>,
    pub phase: Phase,
    /// The names of the columns, once they are known.
    pub columns: Seq<Seq<char>>,
    /// The rows that wait for the next insert.
    pub rows: Seq<Seq<Decoded>>,
    /// The warnings that were not yet taken.
    pub warnings: Seq<TransformWarning>,
}

impl Pipeline {
    /// The pipeline in another phase.
    pub open spec fn at(self, phase: Phase) -> Pipeline {
        Pipeline { phase, ..self }
    }

    /// The pipeline after a failure: it holds no rows.
    pub open spec fn failed(self) -> Pipeline {
        Pipeline { phase: Phase::Failed, rows: Seq::empty(), ..self }
    }

    /// The pipeline after the next row of the stream, and what to do then.
    ///
    /// The row is decoded and transformed and joins the waiting rows. When
    /// these are as many as the batch size they leave in one insert. A
    /// cell without a decoding ends the pipeline.
    pub open spec fn take_row(self, cells: Seq<RawValue>) -> (Pipeline, Effect) {
        let outcome = row_outcome(cells, self.columns, self.transformers, cells.len());
        let warnings = self.warnings + outcome.warnings;
        match outcome.failure {
            Some(failure) => (Pipeline { warnings, ..self.failed() }, Effect::Fail(failure)),
            None => {
                let rows = self.rows.push(outcome.values);
                if rows.len() == self.batch_size {
                    (
                        Pipeline { phase: Phase::Inserting, rows: Seq::empty(), warnings, ..self },
                        Effect::Insert { statement: insert_statement(self.name), rows },
                    )
                } else {
                    (Pipeline { phase: Phase::Streaming, rows, warnings, ..self }, Effect::NextRow)
                }
            },
        }
    }

    /// The pipeline after the end of the stream, and what to do then: the
    /// rows that still wait leave in a last insert.
    pub open spec fn end_stream(self) -> (Pipeline, Effect) {
        if self.rows.len() > 0 {
            (
                Pipeline { phase: Phase::Flush, rows: Seq::empty(), ..self },
                Effect::Insert { statement: insert_statement(self.name), rows: self.rows },
            )
        } else {
            (self.at(Phase::Done), Effect::Succeed)
        }
    }

    /// The pipeline after an event, and what to do then.
    ///
    /// A pipeline that has ended stays as it is. A failure of the last
    /// action ends it, in every phase, and so does an event that the phase
    /// does not wait for.
    pub open spec fn step(self, event: Event) -> (Pipeline, Effect) {
        if self.phase.is_terminal() {
            (self, Effect::Nothing)
        } else {
            match (self.phase, event) {
                (_, Event::Failed(err)) => (self.failed(), Effect::Fail(Failure::Driver(err))),
                (Phase::Idle, Event::Start) => (self.at(Phase::Acquire), Effect::AcquireTarget),
                (Phase::Acquire, Event::Completed) => (
                    self.at(Phase::DisableKeyChecks),
                    Effect::Execute(DISABLE_KEY_CHECKS@),
                ),
                (Phase::DisableKeyChecks, Event::Completed) => (
                    self.at(Phase::DropTable),
                    Effect::Execute(drop_statement(self.name)),
                ),
                (Phase::DropTable, Event::Completed) => (
                    self.at(Phase::FetchDefinition),
                    Effect::FetchDefinition(show_create_statement(self.name)),
                ),
                (Phase::FetchDefinition, Event::Definition(sql)) => (
                    self.at(Phase::CreateTable),
                    Effect::Execute(sql@),
                ),
                (Phase::CreateTable, Event::Completed) => if self.skip_data {
                    (self.at(Phase::Done), Effect::Succeed)
                } else {
                    (
                        self.at(Phase::ColumnDiscovery),
                        Effect::FetchColumns {
                            query: SELECT_COLUMNS_FOR_INSERT@,
                            table: self.name,
                        },
                    )
                },
                (Phase::ColumnDiscovery, Event::Columns(columns)) => (
                    Pipeline { phase: Phase::Streaming, columns: names(columns@), ..self },
                    Effect::OpenCursor(select_statement(self.name)),
                ),
                (Phase::Streaming, Event::Row(cells)) => self.take_row(cells@),
                (Phase::Streaming, Event::EndOfStream) => self.end_stream(),
                (Phase::Inserting, Event::Completed) => (
                    self.at(Phase::Streaming),
                    Effect::NextRow,
                ),
                (Phase::Flush, Event::Completed) => (self.at(Phase::Done), Effect::Succeed),
                _ => (self.failed(), Effect::Fail(Failure::Protocol)),
            }
        }
    }
}

/// The pipeline of one table.
pub struct TableExtractor {
    migrate_table_config: MigrateTableConfig,
    name: String,
    phase: Phase,
    columns: Vec<String>,
    rows: Vec<Vec<MysqlValueDecoded>>,
    warnings: Vec<TransformWarning>,
}

impl View for TableExtractor {
    type V = Pipeline;

    closed spec fn view(&self) -> Pipeline {
        Pipeline {
            name: self.name@,
            batch_size: self.migrate_table_config.batch_size,
            skip_data: self.migrate_table_config.skip_data,
            outfile: outfile_view(self.migrate_table_config.outfile),
            transformers: self.migrate_table_config.transformers@,
            phase: self.phase,
            columns: names(self.columns@),
            rows: rows_view(self.rows@),
            warnings: self.warnings@,
        }
    }
}

impl TableExtractor {
    /// A pipeline for the table `name`, not yet started. It keeps the
    /// settings as they are given, every field of them.
    pub fn new(migrate_table_config: MigrateTableConfig, name: String) -> (extractor: Self)
        ensures
            extractor@ == (Pipeline {
                name: name@,
                batch_size: migrate_table_config.batch_size,
                skip_data: migrate_table_config.skip_data,
                outfile: outfile_view(migrate_table_config.outfile),
                transformers: migrate_table_config.transformers@,
                phase: Phase::Idle,
                columns: Seq::empty(),
                rows: Seq::empty(),
                warnings: Seq::empty(),
            }),
    {
        let extractor = Self {
            migrate_table_config,
            name,
            phase: Phase::Idle,
            columns: Vec::new(),
            rows: Vec::new(),
            warnings: Vec::new(),
        };
        assert(extractor@.columns =~= Seq::empty());
        assert(extractor@.rows =~= Seq::empty());
        extractor
    }

    /// The table that the pipeline migrates.
    pub fn name(&self) -> (name: &str)
        ensures
            name@ == self@.name,
    {
        self.name.as_str()
    }

    /// The settings that the pipeline was made with.
    pub fn settings(&self) -> (settings: &MigrateTableConfig)
        ensures
            settings.batch_size == self@.batch_size,
            settings.skip_data == self@.skip_data,
            outfile_view(settings.outfile) == self@.outfile,
            settings.transformers@ == self@.transformers,
    {
        &self.migrate_table_config
    }

    /// Where the pipeline stands.
    pub fn phase(&self) -> (phase: Phase)
        ensures
            phase == self@.phase,
    {
        self.phase
    }

    /// Hands out the warnings that have come up since the last call.
    pub fn take_warnings(&mut self) -> (warnings: Vec<TransformWarning>)
        ensures
            warnings@ == old(self)@.warnings,
            final(self)@ == (Pipeline { warnings: Seq::empty(), ..old(self)@ }),
    {
        let mut taken: Vec<TransformWarning> = Vec::new();
        std::mem::swap(&mut self.warnings, &mut taken);
        taken
    }

    /// Ends the pipeline with an error.
    fn fail(&mut self, err: ExtractorError) -> (action: Action)
        ensures
            final(self)@ == (Pipeline { warnings: final(self)@.warnings, ..old(self)@.failed() }),
            final(self)@.warnings == old(self)@.warnings,
            action == Action::Fail(err),
    {
        self.phase = Phase::Failed;
        self.rows = Vec::new();
        assert(rows_view(self.rows@) =~= Seq::empty());
        Action::Fail(err)
    }

    /// Hands the waiting rows to an insert.
    fn flush(&mut self, phase: Phase) -> (action: Action)
        ensures
            final(self)@ == (Pipeline { phase, rows: Seq::empty(), ..old(self)@ }),
            action.performs(
                Effect::Insert {
                    statement: insert_statement(old(self)@.name),
                    rows: old(self)@.rows,
                },
            ),
    {
        let mut rows: Vec<Vec<MysqlValueDecoded>> = Vec::new();
        std::mem::swap(&mut self.rows, &mut rows);
        self.phase = phase;
        assert(rows_view(self.rows@) =~= Seq::empty());
        Action::Insert { statement: quoted("INSERT INTO `", self.name.as_str()), rows }
    }

    /// Takes the next row of the stream.
    fn take_row(&mut self, cells: Vec<RawValue>) -> (action: Action)
        requires
            old(self)@.phase is Streaming,
        ensures
            final(self)@ == old(self)@.take_row(cells@).0,
            action.performs(old(self)@.take_row(cells@).1),
    {
        let ghost before = self@;
        match decode_row(cells, &self.columns, &self.migrate_table_config, &mut self.warnings) {
            Err(err) => self.fail(ExtractorError::from(err)),
            Ok(values) => {
                self.rows.push(values);
                assert(rows_view(self.rows@) =~= before.rows.push(row_view(values@)));
                if self.rows.len() == self.migrate_table_config.batch_size {
                    self.flush(Phase::Inserting)
                } else {
                    Action::NextRow
                }
            },
        }
    }

    /// Tells the pipeline what happened to its last action, and returns
    /// what to do next.
    ///
    /// A pipeline begins with `Event::Start`. It ends with the action
    /// `Succeed` or `Fail`; after that it answers `Nothing`.
    pub fn extract(&mut self, event: Event) -> (action: Action)
        ensures
            final(self)@ == old(self)@.step(event).0,
            action.performs(old(self)@.step(event).1),
    {
        match self.phase {
            Phase::Done | Phase::Failed => {
                return Action::Nothing;
            },
            _ => {},
        }
        match event {
            Event::Failed(err) => self.fail(ExtractorError::from(err)),
            Event::Start => match self.phase {
                Phase::Idle => {
                    self.phase = Phase::Acquire;
                    Action::AcquireTarget
                },
                _ => self.fail(ExtractorError::Sqlx(protocol_error("unexpected start"))),
            },
            Event::Completed => match self.phase {
                Phase::Acquire => {
                    self.phase = Phase::DisableKeyChecks;
                    Action::Execute(String::from_str(DISABLE_KEY_CHECKS))
                },
                Phase::DisableKeyChecks => {
                    self.phase = Phase::DropTable;
                    Action::Execute(quoted("DROP TABLE IF EXISTS `", self.name.as_str()))
                },
                Phase::DropTable => {
                    self.phase = Phase::FetchDefinition;
                    Action::FetchDefinition(quoted("SHOW CREATE TABLE `", self.name.as_str()))
                },
                Phase::CreateTable => {
                    if self.migrate_table_config.skip_data {
                        self.phase = Phase::Done;
                        Action::Succeed
                    } else {
                        self.phase = Phase::ColumnDiscovery;
                        Action::FetchColumns {
                            query: String::from_str(SELECT_COLUMNS_FOR_INSERT),
                            table: self.name.clone(),
                        }
                    }
                },
                Phase::Inserting => {
                    self.phase = Phase::Streaming;
                    Action::NextRow
                },
                Phase::Flush => {
                    self.phase = Phase::Done;
                    Action::Succeed
                },
                _ => self.fail(ExtractorError::Sqlx(protocol_error("unexpected completion"))),
            },
            Event::Definition(sql) => match self.phase {
                Phase::FetchDefinition => {
                    self.phase = Phase::CreateTable;
                    Action::Execute(sql)
                },
                _ => self.fail(ExtractorError::Sqlx(protocol_error("unexpected definition"))),
            },
            Event::Columns(columns) => match self.phase {
                Phase::ColumnDiscovery => {
                    self.phase = Phase::Streaming;
                    self.columns = columns;
                    Action::OpenCursor(quoted("SELECT * FROM `", self.name.as_str()))
                },
                _ => self.fail(ExtractorError::Sqlx(protocol_error("unexpected columns"))),
            },
            Event::Row(cells) => match self.phase {
                Phase::Streaming => self.take_row(cells),
                _ => self.fail(ExtractorError::Sqlx(protocol_error("unexpected row"))),
            },
            Event::EndOfStream => match self.phase {
                Phase::Streaming => {
                    if self.rows.len() > 0 {
                        self.flush(Phase::Flush)
                    } else {
                        self.phase = Phase::Done;
                        Action::Succeed
                    }
                },
                _ => self.fail(ExtractorError::Sqlx(protocol_error("unexpected end of stream"))),
            },
        }
    }
}

} // verus!
