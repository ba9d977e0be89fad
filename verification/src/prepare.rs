//! The statements that make the target database ready before any table is
//! copied, and the order in which they are due.

use vstd::prelude::*;
use vstd::string::StringExecFns;

verus! {

/// Asks the source for the default character set of its current database.
pub const SELECT_CHARSET: &'static str =
    "SELECT default_character_set_name FROM information_schema.SCHEMATA WHERE schema_name = DATABASE()";

/// `DROP DATABASE IF EXISTS` for a database.
pub open spec fn drop_database_statement(database: Seq<char>) -> Seq<char> {
    "DROP DATABASE IF EXISTS `"@ + database + "`"@
}

/// The query that finds a database by its name.
pub open spec fn find_database_statement(database: Seq<char>) -> Seq<char> {
    "SELECT SCHEMA_NAME FROM information_schema.SCHEMATA WHERE SCHEMA_NAME = '"@ + database + "'"@
}

/// `CREATE DATABASE` with a default character set.
pub open spec fn create_database_statement(database: Seq<char>, charset: Seq<char>) -> Seq<char> {
    "CREATE DATABASE `"@ + database + "` DEFAULT CHARACTER SET "@ + charset
}

/// What is to be done first for the target database.
#[derive(Debug, PartialEq)]
pub enum Preparation {
    /// Run the statement, which drops the database, and create it then.
    Drop(String),
    /// Run the query; create the database unless it has a row.
    Find(String),
}

/// The first step: to drop the database where that is asked for, and else
/// to look whether it is there.
pub fn prepare(database: &str, drop_if_exists: bool) -> (first: Preparation)
    ensures
        match first {
            Preparation::Drop(statement) => drop_if_exists && statement@
                == drop_database_statement(database@),
            Preparation::Find(statement) => !drop_if_exists && statement@
                == find_database_statement(database@),
        },
{
    if drop_if_exists {
        let mut statement = String::from_str("DROP DATABASE IF EXISTS `");
        statement.append(database);
        statement.append("`");
        Preparation::Drop(statement)
    } else {
        let mut statement = String::from_str(
            "SELECT SCHEMA_NAME FROM information_schema.SCHEMATA WHERE SCHEMA_NAME = '",
        );
        statement.append(database);
        statement.append("'");
        Preparation::Find(statement)
    }
}

/// The statement that creates the database, `None` for one that was found
/// and is kept as it is.
pub fn create_database(database: &str, charset: &str, found: bool) -> (statement: Option<String>)
    ensures
        match statement {
            None => found,
            Some(s) => !found && s@ == create_database_statement(database@, charset@),
        },
{
    if found {
        None
    } else {
        let mut statement = String::from_str("CREATE DATABASE `");
        statement.append(database);
        statement.append("` DEFAULT CHARACTER SET ");
        statement.append(charset);
        Some(statement)
    }
}

} // verus!
