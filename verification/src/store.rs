//! Records of the strategy store and the decisions made around its queries:
//! trader credentials, assignments, strategy and trader edits, sign-up data
//! and its validation, matching of price rows to trading pairs, batching of
//! row writes, and reading deletion counts.
use vstd::prelude::*;

verus! {

/// A trader account on an exchange, with its API credentials.
pub struct Trader {
    pub id: i32,
    pub user_id: i32,
    pub name: String,
    pub exchange: String,
    pub api_key: String,
    pub api_secret: String,
}

/// API credentials of an exchange account.
pub struct AuthInfo {
    pub key: String,
    pub secret: String,
}

impl Trader {
    /// The trader's API credentials.
    pub fn into_auth_info(self) -> (a: AuthInfo)
        ensures
            a.key == self.api_key,
            a.secret == self.api_secret,
    {
        AuthInfo { key: self.api_key, secret: self.api_secret }
    }
}

/// A strategy assigned to trade a pair on an exchange, at a period, possibly
/// through a trader account.
pub struct Assignment {
    pub exchange: String,
    pub pair: String,
    pub period: String,
    pub strategy_id: i32,
    pub trader_id: Option<i32>,
}

/// A strategy as its owner edits it.
pub struct StrategyData {
    pub id: Option<i32>,
    pub user_id: i32,
    pub name: String,
    pub body: String,
}

/// A trader account as its owner edits it.
pub struct TraderData {
    pub id: Option<i32>,
    pub user_id: i32,
    pub name: String,
    pub exchange: String,
    pub api_key: String,
    pub api_secret: String,
}

/// The time of a price row of a pair.
#[derive(Clone, Copy, PartialEq, Eq, Structural, Debug)]
pub struct OhlcTime {
    pub pair_id: i32,
    pub time: i64,
}

/// A user's sign-up or log-in data.
pub struct UserAuthInfo {
    pub email: String,
    pub password: String,
}

/// What is wrong with sign-up data.
#[derive(Clone, Copy, PartialEq, Eq, Structural, Debug)]
pub enum ValidationError {
    /// The email address is not valid ("Invalid email").
    InvalidEmail,
}

/// Whether `email` is an email address, as the `validator` crate's
/// `validate_email` judges it (an HTML5-style address with a valid domain
/// or address literal).
pub uninterp spec fn email_valid(email: Seq<char>) -> bool;

/// Check an email address: calls `validator::validate_email`. Its source
/// rejects at once the empty string and any string without `@`; beyond
/// that the verdict is only tied to `email_valid`.
#[verifier::external_body]
fn check_email(email: &str) -> (b: bool)
    ensures
        b == email_valid(email@),
        (email@.len() == 0 || !email@.contains('@')) ==> !b,
{
    validator::validate_email(email)
}

impl UserAuthInfo {
    /// Validate the data: the email address must be valid.
    pub fn validate(&self) -> (r: Result<(), ValidationError>)
        ensures
            email_valid(self.email@) ==> r is Ok,
            !email_valid(self.email@) ==> r == Err::<(), ValidationError>(ValidationError::InvalidEmail),
    {
        if check_email(self.email.as_str()) {
            Ok(())
        } else {
            Err(ValidationError::InvalidEmail)
        }
    }
}

/// Whether a delete removed something, from the number of rows it removed.
pub fn deleted_any(rows: usize) -> (b: bool)
    ensures
        b == (rows > 0),
{
    rows > 0
}

/// The first row, by index, whose pair is `pair_id`.
pub open spec fn first_row_of(rows: Seq<i32>, pair_id: i32, at: int) -> bool {
    &&& 0 <= at < rows.len()
    &&& rows[at] == pair_id
    &&& forall|j: int| 0 <= j < at ==> rows[j] != pair_id
}

/// Whether some row has pair `pair_id`.
pub open spec fn has_row_of(rows: Seq<i32>, pair_id: i32) -> bool {
    exists|j: int| 0 <= j < rows.len() && rows[j] == pair_id
}

fn first_row(rows: &Vec<i32>, pair_id: i32) -> (r: Option<usize>)
    ensures
        match r {
            Some(at) => first_row_of(rows@, pair_id, at as int),
            None => !has_row_of(rows@, pair_id),
        },
{
    let mut j: usize = 0;
    while j < rows.len()
        invariant
            j <= rows@.len(),
            forall|k: int| 0 <= k < j ==> rows@[k] != pair_id,
        decreases rows@.len() - j,
    {
        if rows[j] == pair_id {
            return Some(j);
        }
        j = j + 1;
    }
    None
}

/// For each pair, the index of the first price row of that pair; `None` as
/// soon as some pair has no row (the query then fails with "not found").
/// `pairs` are the pairs' ids and `rows` the pair id of each row.
pub fn match_rows_to_pairs(pairs: &Vec<i32>, rows: &Vec<i32>) -> (r: Option<Vec<usize>>)
    ensures
        match r {
            Some(v) => {
                &&& v@.len() == pairs@.len()
                &&& forall|i: int| 0 <= i < pairs@.len() ==> first_row_of(rows@, pairs@[i], #[trigger] v@[i] as int)
            },
            None => exists|i: int| 0 <= i < pairs@.len() && !has_row_of(rows@, #[trigger] pairs@[i]),
        },
{
    let mut v: Vec<usize> = Vec::new();
    let mut i: usize = 0;
    while i < pairs.len()
        invariant
            i <= pairs@.len(),
            v@.len() == i,
            forall|k: int| 0 <= k < i ==> first_row_of(rows@, pairs@[k], #[trigger] v@[k] as int),
        decreases pairs@.len() - i,
    {
        match first_row(rows, pairs[i]) {
            Some(at) => {
                v.push(at);
            },
            None => {
                assert(!has_row_of(rows@, pairs@[i as int]));
                return None;
            },
        }
        i = i + 1;
    }
    Some(v)
}

/// How many price rows are written in one statement.
pub const WRITE_BATCH: usize = 4096;

/// The smaller of two integers.
pub open spec fn min_int(a: int, b: int) -> int {
    if a < b {
        a
    } else {
        b
    }
}

/// The batches `[start, end)` that `len` rows are written in, `size` rows at
/// a time, in order: batch `i` covers rows `i * size` up to
/// `(i + 1) * size` or `len`, whichever is smaller, and there are just
/// enough batches to cover all rows.
pub fn write_batches(len: usize, size: usize) -> (v: Vec<(usize, usize)>)
    requires
        size > 0,
    ensures
        forall|i: int|
            0 <= i < v@.len() ==> #[trigger] v@[i].0 == i * size && v@[i].1 == min_int((i + 1) * size, len as int),
        v@.len() * size >= len,
        v@.len() > 0 ==> (v@.len() - 1) * size < len,
        v@.len() > 0 ==> v@[0].0 == 0 && v@.last().1 == len,
        forall|i: int| 0 <= i < v@.len() - 1 ==> #[trigger] v@[i].1 == v@[i + 1].0,
        forall|i: int| 0 <= i < v@.len() ==> v@[i].0 < #[trigger] v@[i].1 <= v@[i].0 + size,
{
    let mut v: Vec<(usize, usize)> = Vec::new();
    let mut start: usize = 0;
    assert(v@.len() * size == 0) by (nonlinear_arith)
        requires
            v@.len() == 0,
    ;
    while start < len
        invariant
            size > 0,
            start as int == min_int(v@.len() * size, len as int),
            forall|i: int|
                0 <= i < v@.len() ==> #[trigger] v@[i].0 == i * size && v@[i].1 == min_int((i + 1) * size, len as int),
            v@.len() > 0 ==> (v@.len() - 1) * size < len,
            v@.len() > 0 ==> v@[0].0 == 0 && v@.last().1 == start,
            forall|i: int| 0 <= i < v@.len() - 1 ==> #[trigger] v@[i].1 == v@[i + 1].0,
            forall|i: int| 0 <= i < v@.len() ==> v@[i].0 < #[trigger] v@[i].1 <= v@[i].0 + size,
        decreases len - start,
    {
        let ghost k = v@.len();
        assert((k + 1) * size == k * size + size) by (nonlinear_arith);
        let end = if len - start > size { start + size } else { len };
        let ghost before = v@;
        v.push((start, end));
        proof {
            assert(start as int == k * size);
            assert(end as int == min_int((k + 1) * size, len as int));
            assert forall|i: int| 0 <= i < v@.len() implies #[trigger] v@[i].0 == i * size && v@[i].1
                == min_int((i + 1) * size, len as int) by {
                if i < k {
                    assert(v@[i] == before[i]);
                }
            }
            assert(0 * size == 0) by (nonlinear_arith);
            assert forall|i: int| 0 <= i < v@.len() - 1 implies #[trigger] v@[i].1 == v@[i + 1].0 by {
                if i < k - 1 {
                    assert(v@[i] == before[i]);
                    assert(v@[i + 1] == before[i + 1]);
                } else {
                    assert(v@[i] == before[i]);
                }
            }
            assert forall|i: int| 0 <= i < v@.len() implies v@[i].0 < #[trigger] v@[i].1 <= v@[i].0 + size by {
                if i < k {
                    assert(v@[i] == before[i]);
                }
            }
        }
        start = end;
    }
    v
}

/// The total number of rows written by the batches, from the count each
/// batch wrote; `None` if the total overflows.
pub fn total_written(counts: &Vec<usize>) -> (r: Option<usize>)
    ensures
        match r {
            Some(t) => t == counts@.fold_left(0int, |acc: int, c: usize| acc + c),
            None => counts@.fold_left(0int, |acc: int, c: usize| acc + c) > usize::MAX,
        },
{
    let mut total: usize = 0;
    let mut i: usize = 0;
    while i < counts.len()
        invariant
            i <= counts@.len(),
            total == counts@.subrange(0, i as int).fold_left(0int, |acc: int, c: usize| acc + c),
        decreases counts@.len() - i,
    {
        proof {
            let s = counts@.subrange(0, i + 1);
            assert(s.drop_last() =~= counts@.subrange(0, i as int));
        }
        match total.checked_add(counts[i]) {
            Some(t) => {
                total = t;
            },
            None => {
                proof {
                    lemma_fold_grows(counts@, i as int + 1);
                }
                return None;
            },
        }
        i = i + 1;
    }
    assert(counts@.subrange(0, counts@.len() as int) =~= counts@);
    Some(total)
}

proof fn lemma_fold_grows(s: Seq<usize>, k: int)
    requires
        0 <= k <= s.len(),
    ensures
        s.fold_left(0int, |acc: int, c: usize| acc + c) >= s.subrange(0, k).fold_left(0int, |acc: int, c: usize| acc + c),
    decreases s.len() - k,
{
    if k < s.len() {
        lemma_fold_grows(s, k + 1);
        let t = s.subrange(0, k + 1);
        assert(t.drop_last() =~= s.subrange(0, k));
    } else {
        assert(s.subrange(0, k) =~= s);
    }
}

/// The first row of a pair is one row of that pair, no earlier row is of
/// that pair, and there is only one first row: a pair has a first row
/// exactly when some row is of that pair.
pub proof fn law_first_row_is_unique(rows: Seq<i32>, pair_id: i32, a: int, b: int)
    ensures
        first_row_of(rows, pair_id, a) ==> rows[a] == pair_id && has_row_of(rows, pair_id),
        first_row_of(rows, pair_id, a) && first_row_of(rows, pair_id, b) ==> a == b,
        has_row_of(rows, pair_id) ==> exists|at: int| first_row_of(rows, pair_id, at),
{
    if has_row_of(rows, pair_id) {
        lemma_first_row_exists(rows, pair_id, rows.len() as int);
    }
}

proof fn lemma_first_row_exists(rows: Seq<i32>, pair_id: i32, n: int)
    requires
        0 <= n <= rows.len(),
        exists|j: int| 0 <= j < n && rows[j] == pair_id,
    ensures
        exists|at: int| first_row_of(rows, pair_id, at),
    decreases n,
{
    if exists|j: int| 0 <= j < n - 1 && rows[j] == pair_id {
        lemma_first_row_exists(rows, pair_id, n - 1);
    } else {
        assert(first_row_of(rows, pair_id, n - 1));
    }
}

/// The smaller of two integers is no larger than either and is one of them.
pub proof fn law_min_int(a: int, b: int)
    ensures
        min_int(a, b) <= a,
        min_int(a, b) <= b,
        min_int(a, b) == a || min_int(a, b) == b,
{
}

} // verus!
