//! The outcome of a run: one entry for every table, whatever became of the
//! others.

use crate::extractor::ExtractorError;
use vstd::prelude::*;

verus! {

/// How the migration of one table ended.
#[derive(Debug)]
pub struct TableOutcome {
    pub table: String,
    pub result: Result<(), ExtractorError>,
}

/// The outcomes of the tables of a run, in the order in which they were
/// recorded.
#[derive(Debug)]
pub struct Report {
    pub outcomes: Vec<TableOutcome>,
}

/// The names of the tables that failed, in the order of their outcomes.
pub open spec fn failures(outcomes: Seq<TableOutcome>) -> Seq<Seq<char>>
    decreases outcomes.len(),
{
    if outcomes.len() == 0 {
        Seq::empty()
    } else if outcomes.last().result is Err {
        failures(outcomes.drop_last()).push(outcomes.last().table@)
    } else {
        failures(outcomes.drop_last())
    }
}

/// The characters of each of a list of strings.
pub open spec fn table_names(tables: Seq<String>) -> Seq<Seq<char>> {
    Seq::new(tables.len(), |i: int| tables[i]@)
}

/// No table is named as failed exactly where every outcome is a success.
pub proof fn lemma_no_failures(outcomes: Seq<TableOutcome>)
    ensures
        failures(outcomes).len() == 0 <==> forall|i: int|
            0 <= i < outcomes.len() ==> (#[trigger] outcomes[i]).result is Ok,
    decreases outcomes.len(),
{
    if outcomes.len() > 0 {
        lemma_no_failures(outcomes.drop_last());
        if failures(outcomes).len() == 0 {
            assert forall|i: int| 0 <= i < outcomes.len() implies (#[trigger] outcomes[i]).result
                is Ok by {
                if i < outcomes.len() - 1 {
                    assert(outcomes.drop_last()[i] == outcomes[i]);
                }
            }
        } else if outcomes.last().result is Ok {
            let shorter = outcomes.drop_last();
            let i = choose|i: int| 0 <= i < shorter.len() && !((#[trigger] shorter[i]).result is Ok);
            assert(outcomes[i] == shorter[i]);
        }
    }
}

impl Report {
    /// A report without outcomes.
    pub fn new() -> (report: Report)
        ensures
            report.outcomes@ == Seq::<TableOutcome>::empty(),
    {
        Report { outcomes: Vec::new() }
    }

    /// Adds the outcome of a table behind the others.
    pub fn record(&mut self, table: String, result: Result<(), ExtractorError>)
        ensures
            final(self).outcomes@ == old(self).outcomes@.push(TableOutcome { table, result }),
    {
        self.outcomes.push(TableOutcome { table, result });
    }

    /// The number of tables with an outcome.
    pub fn len(&self) -> (n: usize)
        ensures
            n == self.outcomes@.len(),
    {
        self.outcomes.len()
    }

    /// The tables that failed, in the order in which they were recorded:
    /// those to run again.
    pub fn failed_tables(&self) -> (tables: Vec<String>)
        ensures
            table_names(tables@) == failures(self.outcomes@),
    {
        let mut tables: Vec<String> = Vec::new();
        let mut i: usize = 0;
        assert(self.outcomes@.take(0) =~= Seq::empty());
        while i < self.outcomes.len()
            invariant
                i <= self.outcomes.len(),
                table_names(tables@) == failures(self.outcomes@.take(i as int)),
            decreases self.outcomes.len() - i,
        {
            let ghost seen = self.outcomes@.take(i as int);
            let ghost next = self.outcomes@.take(i + 1);
            assert(next.drop_last() =~= seen);
            assert(next.last() == self.outcomes@[i as int]);
            let ghost before = table_names(tables@);
            if self.outcomes[i].result.is_err() {
                tables.push(self.outcomes[i].table.clone());
                assert(table_names(tables@) =~= before.push(self.outcomes@[i as int].table@));
            }
            i += 1;
        }
        assert(self.outcomes@.take(i as int) =~= self.outcomes@);
        tables
    }

    /// Whether every table was migrated.
    pub fn is_success(&self) -> (ok: bool)
        ensures
            ok <==> failures(self.outcomes@).len() == 0,
            ok <==> forall|i: int|
                0 <= i < self.outcomes@.len() ==> (#[trigger] self.outcomes@[i]).result is Ok,
    {
        let mut i: usize = 0;
        while i < self.outcomes.len()
            invariant
                i <= self.outcomes.len(),
                forall|j: int| 0 <= j < i ==> (#[trigger] self.outcomes@[j]).result is Ok,
            decreases self.outcomes.len() - i,
        {
            if self.outcomes[i].result.is_err() {
                proof {
                    lemma_no_failures(self.outcomes@);
                }
                return false;
            }
            i += 1;
        }
        proof {
            lemma_no_failures(self.outcomes@);
        }
        true
    }
}

} // verus!
