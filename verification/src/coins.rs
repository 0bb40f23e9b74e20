//! The coin table: which names are coins, and which nicknames stand for
//! which coin.
//!
//! The table is built once from rows of nickname and coin name. Its coins
//! are the names that some nickname stands for, so whatever a nickname
//! resolves to is a coin of the table.

use vstd::prelude::*;
use vstd::string::*;
use crate::text::str_eq;

verus! {

/// One row of the table: a nickname (a ticker such as "eth") and the name
/// of the coin it stands for.
pub struct Nick {
    pub nick: String,
    pub coin: String,
}

/// The table of nicknames. No nickname occurs twice.
pub struct CoinTable {
    rows: Vec<Nick>,
}

/// The coin that stands in for anything that is neither coin nor nickname.
pub open spec fn default_coin() -> Seq<char> {
    "bitcoin"@
}

/// The map that rows of nickname and coin build when they are entered in
/// order: a later row replaces an earlier one with the same nickname.
pub open spec fn rows_map(rows: Seq<Nick>) -> Map<Seq<char>, Seq<char>>
    decreases rows.len(),
{
    if rows.len() == 0 {
        Map::empty()
    } else {
        rows_map(rows.drop_last()).insert(rows.last().nick@, rows.last().coin@)
    }
}

/// The coin that `token` means, given the nicknames: itself if it is a
/// coin, the coin it stands for if it is a nickname, else the default.
pub open spec fn resolve(nicks: Map<Seq<char>, Seq<char>>, token: Seq<char>) -> Seq<char> {
    if nicks.values().contains(token) {
        token
    } else if nicks.dom().contains(token) {
        nicks[token]
    } else {
        default_coin()
    }
}

/// Whether no nickname occurs twice in `rows`.
pub open spec fn distinct_nicks(rows: Seq<Nick>) -> bool {
    forall|i: int, j: int|
        0 <= i < j < rows.len() ==> (#[trigger] rows[i]).nick@ != (#[trigger] rows[j]).nick@
}

/// The map that rows with distinct nicknames stand for.
pub open spec fn map_of(rows: Seq<Nick>) -> Map<Seq<char>, Seq<char>> {
    Map::new(
        |k: Seq<char>| exists|i: int| 0 <= i < rows.len() && (#[trigger] rows[i]).nick@ == k,
        |k: Seq<char>|
            rows[choose|i: int| 0 <= i < rows.len() && (#[trigger] rows[i]).nick@ == k].coin@,
    )
}

proof fn lemma_map_of_row(rows: Seq<Nick>, i: int)
    requires
        distinct_nicks(rows),
        0 <= i < rows.len(),
    ensures
        map_of(rows).dom().contains(rows[i].nick@),
        map_of(rows)[rows[i].nick@] == rows[i].coin@,
        map_of(rows).values().contains(rows[i].coin@),
{
    let k = rows[i].nick@;
    let j = choose|j: int| 0 <= j < rows.len() && (#[trigger] rows[j]).nick@ == k;
    assert(j == i);
    assert(map_of(rows).contains_key(k) && map_of(rows)[k] == rows[i].coin@);
    assert(map_of(rows).contains_value(rows[i].coin@));
}

proof fn lemma_map_of_replace(rows: Seq<Nick>, i: int, row: Nick)
    requires
        distinct_nicks(rows),
        0 <= i < rows.len(),
        rows[i].nick@ == row.nick@,
    ensures
        distinct_nicks(rows.update(i, row)),
        map_of(rows.update(i, row)) == map_of(rows).insert(row.nick@, row.coin@),
{
    let after = rows.update(i, row);
    assert(distinct_nicks(after)) by {
        assert forall|a: int, b: int| 0 <= a < b < after.len() implies (#[trigger] after[a]).nick@
            != (#[trigger] after[b]).nick@ by {
            assert(after[a].nick@ == rows[a].nick@);
            assert(after[b].nick@ == rows[b].nick@);
        }
    }
    let want = map_of(rows).insert(row.nick@, row.coin@);
    assert forall|k: Seq<char>| map_of(after).dom().contains(k) <==> want.dom().contains(k) by {
        if map_of(after).dom().contains(k) {
            let j = choose|j: int| 0 <= j < after.len() && (#[trigger] after[j]).nick@ == k;
            assert(rows[j].nick@ == k);
        }
        if want.dom().contains(k) {
            if k == row.nick@ {
                assert(after[i].nick@ == k);
            } else {
                let j = choose|j: int| 0 <= j < rows.len() && (#[trigger] rows[j]).nick@ == k;
                assert(after[j].nick@ == k);
            }
        }
    }
    assert forall|k: Seq<char>| map_of(after).dom().contains(k) implies map_of(after)[k]
        == want[k] by {
        let j = choose|j: int| 0 <= j < after.len() && (#[trigger] after[j]).nick@ == k;
        assert(rows[j].nick@ == k);
        lemma_map_of_row(after, j);
        if j != i {
            lemma_map_of_row(rows, j);
        }
    }
    assert(map_of(after) =~= want);
}

proof fn lemma_map_of_push(rows: Seq<Nick>, row: Nick)
    requires
        distinct_nicks(rows),
        forall|i: int| 0 <= i < rows.len() ==> (#[trigger] rows[i]).nick@ != row.nick@,
    ensures
        distinct_nicks(rows.push(row)),
        map_of(rows.push(row)) == map_of(rows).insert(row.nick@, row.coin@),
{
    let after = rows.push(row);
    let n = rows.len() as int;
    assert(distinct_nicks(after)) by {
        assert forall|a: int, b: int| 0 <= a < b < after.len() implies (#[trigger] after[a]).nick@
            != (#[trigger] after[b]).nick@ by {
            if b < n {
                assert(after[a] == rows[a]);
                assert(after[b] == rows[b]);
            } else {
                assert(after[a] == rows[a]);
            }
        }
    }
    let want = map_of(rows).insert(row.nick@, row.coin@);
    assert forall|k: Seq<char>| map_of(after).dom().contains(k) <==> want.dom().contains(k) by {
        if map_of(after).dom().contains(k) {
            let j = choose|j: int| 0 <= j < after.len() && (#[trigger] after[j]).nick@ == k;
            if j < n {
                assert(rows[j].nick@ == k);
            }
        }
        if want.dom().contains(k) {
            if k == row.nick@ {
                assert(after[n].nick@ == k);
            } else {
                let j = choose|j: int| 0 <= j < rows.len() && (#[trigger] rows[j]).nick@ == k;
                assert(after[j].nick@ == k);
            }
        }
    }
    assert forall|k: Seq<char>| map_of(after).dom().contains(k) implies map_of(after)[k]
        == want[k] by {
        let j = choose|j: int| 0 <= j < after.len() && (#[trigger] after[j]).nick@ == k;
        lemma_map_of_row(after, j);
        if j < n {
            assert(after[j] == rows[j]);
            lemma_map_of_row(rows, j);
        }
    }
    assert(map_of(after) =~= want);
}

impl CoinTable {
    #[verifier::type_invariant]
    spec fn distinct(self) -> bool {
        distinct_nicks(self.rows@)
    }

    /// The nicknames of the table, each with the coin it stands for.
    pub closed spec fn view(&self) -> Map<Seq<char>, Seq<char>> {
        map_of(self.rows@)
    }

    /// The coins of the table: the names that some nickname stands for.
    pub open spec fn coins(&self) -> Set<Seq<char>> {
        self@.values()
    }

    /// The index of the row of `nick`, if it has one.
    fn position(rows: &Vec<Nick>, nick: &str) -> (r: Option<usize>)
        ensures
            r matches Some(i) ==> i < rows.len() && rows[i as int].nick@ == nick@,
            r is None ==> forall|i: int| 0 <= i < rows.len() ==> (#[trigger] rows[i]).nick@ != nick@,
    {
        let mut i: usize = 0;
        while i < rows.len()
            invariant
                i <= rows.len(),
                forall|j: int| 0 <= j < i ==> (#[trigger] rows[j]).nick@ != nick@,
            decreases rows.len() - i,
        {
            if str_eq(rows[i].nick.as_str(), nick) {
                return Some(i);
            }
            i = i + 1;
        }
        None
    }

    /// Builds the table from rows of nickname and coin name. Where a
    /// nickname comes twice, the later row counts.
    pub fn new(rows: Vec<Nick>) -> (r: CoinTable)
        ensures
            r@ == rows_map(rows@),
    {
        let mut kept: Vec<Nick> = Vec::new();
        let mut rows = rows;
        let ghost given = rows@;
        let n = rows.len();
        let mut i: usize = 0;
        assert(map_of(kept@) =~= Map::empty());
        assert(given.take(0) =~= Seq::empty());
        while i < n
            invariant
                i <= n,
                n == given.len(),
                rows@.len() == n,
                forall|j: int| i <= j < n ==> rows@[j] == given[j],
                distinct_nicks(kept@),
                map_of(kept@) == rows_map(given.take(i as int)),
            decreases n - i,
        {
            let row = Nick { nick: rows[i].nick.clone(), coin: rows[i].coin.clone() };
            proof {
                assert(given.take(i + 1).drop_last() == given.take(i as int));
                assert(given.take(i + 1).last() == given[i as int]);
                assert(row.nick@ == given[i as int].nick@);
                assert(row.coin@ == given[i as int].coin@);
            }
            match Self::position(&kept, row.nick.as_str()) {
                Some(at) => {
                    proof {
                        lemma_map_of_replace(kept@, at as int, row);
                    }
                    kept.set(at, row);
                },
                None => {
                    proof {
                        lemma_map_of_push(kept@, row);
                    }
                    kept.push(row);
                },
            }
            i = i + 1;
        }
        assert(given.take(n as int) == given);
        CoinTable { rows: kept }
    }

    /// Whether `name` is a coin of the table.
    pub fn is_coin(&self, name: &str) -> (r: bool)
        ensures
            r == self.coins().contains(name@),
    {
        proof {
            use_type_invariant(self);
        }
        let mut i: usize = 0;
        while i < self.rows.len()
            invariant
                i <= self.rows.len(),
                distinct_nicks(self.rows@),
                forall|j: int| 0 <= j < i ==> (#[trigger] self.rows[j]).coin@ != name@,
            decreases self.rows.len() - i,
        {
            if str_eq(self.rows[i].coin.as_str(), name) {
                proof {
                    lemma_map_of_row(self.rows@, i as int);
                }
                return true;
            }
            i = i + 1;
        }
        proof {
            if self@.contains_value(name@) {
                let k = choose|k: Seq<char>| #[trigger] self@.dom().contains(k) && self@[k] == name@;
                let j = choose|j: int|
                    0 <= j < self.rows@.len() && (#[trigger] self.rows@[j]).nick@ == k;
                lemma_map_of_row(self.rows@, j);
            }
        }
        false
    }

    /// The coin that `nick` stands for, if it is a nickname.
    pub fn nick_coin(&self, nick: &str) -> (r: Option<String>)
        ensures
            r matches Some(coin) ==> self@.dom().contains(nick@) && self@[nick@] == coin@,
            r is None ==> !self@.dom().contains(nick@),
    {
        proof {
            use_type_invariant(self);
        }
        match Self::position(&self.rows, nick) {
            Some(i) => {
                proof {
                    lemma_map_of_row(self.rows@, i as int);
                }
                Some(self.rows[i].coin.clone())
            },
            None => None,
        }
    }

    /// Resolves a token to a coin: a coin stays unchanged, a nickname gives
    /// its coin, anything else gives the default coin.
    pub fn get_coin(&self, coin: String) -> (r: String)
        ensures
            r@ == resolve(self@, coin@),
            self.coins().contains(r@) || r@ == default_coin(),
    {
        proof {
            lemma_resolve_is_coin(self@, coin@);
        }
        if self.is_coin(coin.as_str()) {
            return coin;
        }
        match self.nick_coin(coin.as_str()) {
            Some(c) => c,
            None => String::from_str("bitcoin"),
        }
    }
}

/// Whatever a token resolves to is a coin of the table or the default
/// coin.
pub proof fn lemma_resolve_is_coin(nicks: Map<Seq<char>, Seq<char>>, token: Seq<char>)
    ensures
        nicks.values().contains(resolve(nicks, token)) || resolve(nicks, token) == default_coin(),
{
    if !nicks.values().contains(token) && nicks.dom().contains(token) {
        assert(nicks.contains_key(token));
        assert(nicks.contains_value(nicks[token]));
    }
}

/// Resolving twice gives what resolving once gives, wherever the default
/// coin resolves to itself.
pub proof fn lemma_resolve_settles(nicks: Map<Seq<char>, Seq<char>>, token: Seq<char>)
    requires
        resolve(nicks, default_coin()) == default_coin(),
    ensures
        resolve(nicks, resolve(nicks, token)) == resolve(nicks, token),
{
    lemma_resolve_is_coin(nicks, token);
}

} // verus!
