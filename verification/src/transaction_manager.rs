//! Nested-transaction emulation: a depth counter and the commands it emits.
//! Depth 0 means no open transaction; the first scope opens with a real
//! `BEGIN`, every deeper scope with a savepoint named by the depth it was
//! opened at, so that repeated entry and exit at one nesting level cannot
//! collide with another level's savepoint.

use vstd::prelude::*;
use crate::errors::{QueryResult, QueryError, error_from_info};
use crate::raw_connection::{RawConnection, error_info};

verus! {

/// The decimal digits of `n`, most significant first.
pub open spec fn spec_decimal(n: nat) -> Seq<char>
    decreases n,
{
    if n < 10 {
        seq![spec_digit_char(n)]
    } else {
        spec_decimal(n / 10).push(spec_digit_char(n % 10))
    }
}

/// The character for one decimal digit.
pub open spec fn spec_digit_char(d: nat) -> char {
    if d == 0 {
        '0'
    } else if d == 1 {
        '1'
    } else if d == 2 {
        '2'
    } else if d == 3 {
        '3'
    } else if d == 4 {
        '4'
    } else if d == 5 {
        '5'
    } else if d == 6 {
        '6'
    } else if d == 7 {
        '7'
    } else if d == 8 {
        '8'
    } else {
        '9'
    }
}

fn digit_str(d: u32) -> (s: &'static str)
    requires
        d < 10,
    ensures
        s@ == seq![spec_digit_char(d as nat)],
{
    proof {
        reveal_strlit("0");
        reveal_strlit("1");
        reveal_strlit("2");
        reveal_strlit("3");
        reveal_strlit("4");
        reveal_strlit("5");
        reveal_strlit("6");
        reveal_strlit("7");
        reveal_strlit("8");
        reveal_strlit("9");
    }
    let s = match d {
        0 => "0",
        1 => "1",
        2 => "2",
        3 => "3",
        4 => "4",
        5 => "5",
        6 => "6",
        7 => "7",
        8 => "8",
        _ => "9",
    };
    proof {
        assert(s@ =~= seq![spec_digit_char(d as nat)]);
    }
    s
}

/// Appends the decimal rendering of `n`.
fn push_decimal(n: u32, out: &mut String)
    ensures
        final(out)@ == old(out)@ + spec_decimal(n as nat),
    decreases n,
{
    if n < 10 {
        out.append(digit_str(n));
    } else {
        push_decimal(n / 10, out);
        out.append(digit_str(n % 10));
        proof {
            assert(out@ =~= old(out)@ + spec_decimal(n as nat));
        }
    }
}

/// Law: decimal renderings are injective — distinct numbers never render to
/// the same digits, so savepoints named by distinct depths never collide.
pub proof fn lemma_decimal_injective(a: nat, b: nat)
    requires
        spec_decimal(a) == spec_decimal(b),
    ensures
        a == b,
    decreases a,
{
    lemma_decimal_len_one(a);
    lemma_decimal_len_one(b);
    if a < 10 && b < 10 {
        assert(spec_decimal(a)[0] == spec_digit_char(a));
        assert(spec_decimal(b)[0] == spec_digit_char(b));
    } else if a < 10 {
        assert(spec_decimal(b).len() == spec_decimal(b / 10).len() + 1);
        assert(spec_decimal(a).len() == 1);
    } else if b < 10 {
        assert(spec_decimal(a).len() == spec_decimal(a / 10).len() + 1);
        assert(spec_decimal(b).len() == 1);
    } else {
        assert(spec_decimal(a).last() == spec_digit_char(a % 10));
        assert(spec_decimal(b).last() == spec_digit_char(b % 10));
        assert(a % 10 == b % 10);
        assert(spec_decimal(a).drop_last() =~= spec_decimal(a / 10));
        assert(spec_decimal(b).drop_last() =~= spec_decimal(b / 10));
        lemma_decimal_injective(a / 10, b / 10);
        assert(a == 10 * (a / 10) + a % 10);
        assert(b == 10 * (b / 10) + b % 10);
    }
}

/// Every decimal rendering holds at least one digit.
proof fn lemma_decimal_len_one(a: nat)
    ensures
        spec_decimal(a).len() >= 1,
{
    if a >= 10 {
        assert(spec_decimal(a).len() == spec_decimal(a / 10).len() + 1);
    }
}

/// The command that opens one more scope at the given current depth: a real
/// transaction at depth 0, a savepoint named by the current depth otherwise.
pub open spec fn spec_begin_command(depth: u32) -> Seq<char> {
    if depth == 0 {
        "BEGIN"@
    } else {
        "SAVEPOINT diesel_savepoint_"@ + spec_decimal(depth as nat)
    }
}

/// The command that commits the innermost scope when the current depth is
/// `depth` (at least 1): a real commit for the outermost scope, a savepoint
/// release otherwise.
pub open spec fn spec_commit_command(depth: u32) -> Seq<char> {
    if depth == 1 {
        "COMMIT"@
    } else {
        "RELEASE SAVEPOINT diesel_savepoint_"@ + spec_decimal((depth - 1) as nat)
    }
}

/// The command that rolls back the innermost scope when the current depth
/// is `depth` (at least 1): a real rollback for the outermost scope, a
/// rollback to the matching savepoint otherwise, which undoes only the
/// inner scope's effects and leaves the outer scope viable.
pub open spec fn spec_rollback_command(depth: u32) -> Seq<char> {
    if depth == 1 {
        "ROLLBACK"@
    } else {
        "ROLLBACK TO SAVEPOINT diesel_savepoint_"@ + spec_decimal((depth - 1) as nat)
    }
}

/// Tracks nesting depth and emits BEGIN / SAVEPOINT / COMMIT / RELEASE /
/// ROLLBACK commands. The depth only changes when the emitted command ran
/// successfully.
pub struct AnsiTransactionManager {
    transaction_depth: u32,
}

impl AnsiTransactionManager {
    /// The number of transaction scopes open right now.
    pub closed spec fn spec_depth(&self) -> u32 {
        self.transaction_depth
    }

    pub fn new() -> (m: AnsiTransactionManager)
        ensures
            m.spec_depth() == 0,
    {
        AnsiTransactionManager { transaction_depth: 0 }
    }

    pub fn get_transaction_depth(&self) -> (d: u32)
        ensures
            d == self.spec_depth(),
    {
        self.transaction_depth
    }

    fn begin_command(&self) -> (s: String)
        ensures
            s@ == spec_begin_command(self.spec_depth()),
    {
        if self.transaction_depth == 0 {
            let mut s = String::new();
            s.append("BEGIN");
            s
        } else {
            let mut s = String::new();
            s.append("SAVEPOINT diesel_savepoint_");
            push_decimal(self.transaction_depth, &mut s);
            s
        }
    }

    fn commit_command(&self) -> (s: String)
        requires
            self.spec_depth() >= 1,
        ensures
            s@ == spec_commit_command(self.spec_depth()),
    {
        if self.transaction_depth == 1 {
            let mut s = String::new();
            s.append("COMMIT");
            s
        } else {
            let mut s = String::new();
            s.append("RELEASE SAVEPOINT diesel_savepoint_");
            push_decimal(self.transaction_depth - 1, &mut s);
            s
        }
    }

    fn rollback_command(&self) -> (s: String)
        requires
            self.spec_depth() >= 1,
        ensures
            s@ == spec_rollback_command(self.spec_depth()),
    {
        if self.transaction_depth == 1 {
            let mut s = String::new();
            s.append("ROLLBACK");
            s
        } else {
            let mut s = String::new();
            s.append("ROLLBACK TO SAVEPOINT diesel_savepoint_");
            push_decimal(self.transaction_depth - 1, &mut s);
            s
        }
    }

    /// Opens one more scope: depth 0 emits `BEGIN`, deeper levels emit a
    /// savepoint named by the current depth. The depth grows by one exactly
    /// when the command ran.
    pub fn begin_transaction(&mut self, raw: &mut RawConnection) -> (r: QueryResult<()>)
        requires
            old(self).spec_depth() < u32::MAX,
        ensures
            r is Ok ==> final(self).spec_depth() == old(self).spec_depth() + 1,
            r is Ok ==> final(raw).history() == old(raw).history().push(
                spec_begin_command(old(self).spec_depth()),
            ),
            r is Err ==> final(self).spec_depth() == old(self).spec_depth(),
            r is Err ==> final(raw).history() == old(raw).history(),
    {
        let sql = self.begin_command();
        match raw.exec(sql.as_str()) {
            Ok(()) => {
                self.transaction_depth = self.transaction_depth + 1;
                Ok(())
            },
            Err(e) => Err(error_from_info(error_info(e))),
        }
    }

    /// Commits the innermost scope: depth 1 emits `COMMIT`, deeper levels
    /// release the matching savepoint. The depth shrinks by one exactly
    /// when the command ran.
    pub fn commit_transaction(&mut self, raw: &mut RawConnection) -> (r: QueryResult<()>)
        requires
            old(self).spec_depth() >= 1,
        ensures
            r is Ok ==> final(self).spec_depth() == old(self).spec_depth() - 1,
            r is Ok ==> final(raw).history() == old(raw).history().push(
                spec_commit_command(old(self).spec_depth()),
            ),
            r is Err ==> final(self).spec_depth() == old(self).spec_depth(),
            r is Err ==> final(raw).history() == old(raw).history(),
    {
        let sql = self.commit_command();
        match raw.exec(sql.as_str()) {
            Ok(()) => {
                self.transaction_depth = self.transaction_depth - 1;
                Ok(())
            },
            Err(e) => Err(error_from_info(error_info(e))),
        }
    }

    /// Rolls back the innermost scope: depth 1 emits `ROLLBACK`, deeper
    /// levels roll back to the matching savepoint, undoing only the inner
    /// scope's effects. The depth shrinks by one exactly when the command
    /// ran.
    pub fn rollback_transaction(&mut self, raw: &mut RawConnection) -> (r: QueryResult<()>)
        requires
            old(self).spec_depth() >= 1,
        ensures
            r is Ok ==> final(self).spec_depth() == old(self).spec_depth() - 1,
            r is Ok ==> final(raw).history() == old(raw).history().push(
                spec_rollback_command(old(self).spec_depth()),
            ),
            r is Err ==> final(self).spec_depth() == old(self).spec_depth(),
            r is Err ==> final(raw).history() == old(raw).history(),
    {
        let sql = self.rollback_command();
        match raw.exec(sql.as_str()) {
            Ok(()) => {
                self.transaction_depth = self.transaction_depth - 1;
                Ok(())
            },
            Err(e) => Err(error_from_info(error_info(e))),
        }
    }
}

/// Law: a nested scope never closes with the outermost transaction's
/// commands. At depth two or more the commit releases a savepoint and the
/// rollback targets one, so an inner rollback undoes the inner scope alone
/// and can never undo what the outer scope holds.
pub proof fn lemma_nested_scope_closes_by_savepoint(depth: u32)
    requires
        depth >= 2,
    ensures
        spec_commit_command(depth) != "COMMIT"@,
        spec_rollback_command(depth) != "ROLLBACK"@,
{
    reveal_strlit("COMMIT");
    reveal_strlit("RELEASE SAVEPOINT diesel_savepoint_");
    reveal_strlit("ROLLBACK");
    reveal_strlit("ROLLBACK TO SAVEPOINT diesel_savepoint_");
    lemma_decimal_len_one((depth - 1) as nat);
    assert(spec_commit_command(depth).len() >= "RELEASE SAVEPOINT diesel_savepoint_"@.len() + 1);
    assert(spec_rollback_command(depth).len() >= "ROLLBACK TO SAVEPOINT diesel_savepoint_"@.len()
        + 1);
    assert("COMMIT"@.len() == 6);
    assert("ROLLBACK"@.len() == 8);
}

/// Law: scopes opened at distinct positive depths use distinct savepoints,
/// and no savepoint command collides with the outermost `BEGIN`.
pub proof fn lemma_begin_commands_distinct(d1: u32, d2: u32)
    requires
        d1 != d2,
    ensures
        spec_begin_command(d1) != spec_begin_command(d2),
{
    reveal_strlit("BEGIN");
    reveal_strlit("SAVEPOINT diesel_savepoint_");
    if d1 == 0 || d2 == 0 {
        assert(spec_begin_command(d1).len() != spec_begin_command(d2).len() || spec_begin_command(
            d1,
        )[0] != spec_begin_command(d2)[0]) by {
            lemma_decimal_len_one(d1 as nat);
            lemma_decimal_len_one(d2 as nat);
        }
    } else {
        if spec_begin_command(d1) == spec_begin_command(d2) {
            let p = "SAVEPOINT diesel_savepoint_"@;
            assert(spec_decimal(d1 as nat) =~= spec_begin_command(d1).skip(p.len() as int));
            assert(spec_decimal(d2 as nat) =~= spec_begin_command(d2).skip(p.len() as int));
            lemma_decimal_injective(d1 as nat, d2 as nat);
        }
    }
}

} // verus!
