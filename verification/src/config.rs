//! Settings of a migration run and their defaults.

use crate::transformer::Transformer;
use vstd::hash_map::StringHashMap;
use vstd::prelude::*;

verus! {

/// A path of the file system, carried as it is.
#[verifier::external_type_specification]
#[verifier::external_body]
pub struct ExPathBuf(std::path::PathBuf);

/// Rows per insert statement when a table's settings name none.
pub fn default_batch_size() -> (n: usize)
    ensures
        n == 1000,
{
    1000
}

/// The value of every switch that a configuration leaves out.
pub fn default_false() -> (b: bool)
    ensures
        !b,
{
    false
}

/// Size of a connection pool when a database's settings name none.
pub fn default_max_connections() -> (n: u32)
    ensures
        n == 10,
{
    10
}

/// What the command line gives: where the configuration file lies.
pub struct Args {
    config: std::path::PathBuf,
}

impl Args {
    /// The path of the configuration file.
    pub closed spec fn spec_config(&self) -> std::path::PathBuf {
        self.config
    }

    /// The arguments of a run that reads its configuration at `config`.
    pub fn new(config: std::path::PathBuf) -> (args: Args)
        ensures
            args.spec_config() == config,
    {
        Args { config }
    }

    /// The path of the configuration file.
    pub fn config(&self) -> (path: &std::path::PathBuf)
        ensures
            *path == self.spec_config(),
    {
        &self.config
    }
}

/// How one table is migrated.
pub struct MigrateTableConfig {
    /// Rows per insert statement; at least 1 in a valid configuration.
    pub batch_size: usize,
    /// Copy the table's definition and none of its rows.
    pub skip_data: bool,
    /// A file to write to in place of the target.
    pub outfile: Option<String>,
    /// The transformer of each column that has one, by column name.
    pub transformers: StringHashMap<Transformer>,
}

impl MigrateTableConfig {
    /// Whether the batch size is at least 1.
    pub open spec fn valid(&self) -> bool {
        self.batch_size >= 1
    }

    /// The settings with one transformer per column of `self`, but for
    /// `column`, whose transformer is now `transformer`.
    pub fn set_transformer(&mut self, column: String, transformer: Transformer)
        ensures
            final(self).transformers@ == old(self).transformers@.insert(column@, transformer),
            final(self).batch_size == old(self).batch_size,
            final(self).skip_data == old(self).skip_data,
            final(self).outfile == old(self).outfile,
    {
        self.transformers.insert(column, transformer);
    }

    /// The transformer of a column, `None` for a column without one.
    pub fn transformer(&self, column: &str) -> (found: Option<&Transformer>)
        ensures
            match found {
                Some(t) => self.transformers@.contains_key(column@) && *t
                    == self.transformers@[column@],
                None => !self.transformers@.contains_key(column@),
            },
    {
        self.transformers.get(column)
    }

    /// Whether the settings can be used: the batch size is at least 1.
    pub fn is_valid(&self) -> (ok: bool)
        ensures
            ok == self.valid(),
    {
        self.batch_size >= 1
    }
}

impl Default for MigrateTableConfig {
    /// The settings of a table that the configuration does not name: 1000
    /// rows per insert, rows copied, no output file, no transformers.
    fn default() -> (config: MigrateTableConfig)
        ensures
            config.batch_size == 1000,
            !config.skip_data,
            config.outfile is None,
            config.transformers@ == Map::<Seq<char>, Transformer>::empty(),
            config.valid(),
    {
        MigrateTableConfig {
            batch_size: default_batch_size(),
            skip_data: default_false(),
            transformers: StringHashMap::new(),
            outfile: None,
        }
    }
}

} // verus!
