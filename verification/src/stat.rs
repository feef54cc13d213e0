//! The statistics that the simulator keeps, the tokens that ask for them
//! and the values that come back.

use crate::error::MmsError;
use crate::text::str_eq;
use vstd::prelude::*;
use vstd::string::*;

verus! {

/// Which statistic to ask for.
#[derive(Clone, Copy, Debug, PartialEq, Eq, Structural)]
pub enum StatQuery {
    TotalDistance,
    TotalTurns,
    BestRunDistance,
    BestRunTurns,
    CurrentRunDistance,
    CurrentRunTurns,
    TotalEffectiveDistance,
    BestRunEffectiveDistance,
    CurrentRunEffectiveDistance,
    Score,
}

/// A statistic as the simulator reported it, tagged by the query that
/// asked for it. Distances and turns are whole numbers. Effective
/// distances and the score are real numbers, held as the bit pattern of
/// an IEEE 754 single-precision value.
#[derive(Clone, Copy, Debug, PartialEq, Eq, Structural)]
pub enum Stat {
    TotalDistance(i32),
    TotalTurns(i32),
    BestRunDistance(i32),
    BestRunTurns(i32),
    CurrentRunDistance(i32),
    CurrentRunTurns(i32),
    TotalEffectiveDistance(u32),
    BestRunEffectiveDistance(u32),
    CurrentRunEffectiveDistance(u32),
    Score(u32),
}

impl StatQuery {
    /// The token that stands for this query on the wire.
    pub open spec fn token(self) -> Seq<char> {
        match self {
            StatQuery::TotalDistance => "total-distance"@,
            StatQuery::TotalTurns => "total-turns"@,
            StatQuery::BestRunDistance => "best-run-distance"@,
            StatQuery::BestRunTurns => "best-run-turns"@,
            StatQuery::CurrentRunDistance => "current-run-distance"@,
            StatQuery::CurrentRunTurns => "current-run-turns"@,
            StatQuery::TotalEffectiveDistance => "total-effective-distance"@,
            StatQuery::BestRunEffectiveDistance => "best-run-effective-distance"@,
            StatQuery::CurrentRunEffectiveDistance => "current-run-effective-distance"@,
            StatQuery::Score => "score"@,
        }
    }

    /// The query that the text `s` names, if any.
    pub open spec fn from_token(s: Seq<char>) -> Option<StatQuery> {
        if s == "total-distance"@ {
            Some(StatQuery::TotalDistance)
        } else if s == "total-turns"@ {
            Some(StatQuery::TotalTurns)
        } else if s == "best-run-distance"@ {
            Some(StatQuery::BestRunDistance)
        } else if s == "best-run-turns"@ {
            Some(StatQuery::BestRunTurns)
        } else if s == "current-run-distance"@ {
            Some(StatQuery::CurrentRunDistance)
        } else if s == "current-run-turns"@ {
            Some(StatQuery::CurrentRunTurns)
        } else if s == "total-effective-distance"@ {
            Some(StatQuery::TotalEffectiveDistance)
        } else if s == "best-run-effective-distance"@ {
            Some(StatQuery::BestRunEffectiveDistance)
        } else if s == "current-run-effective-distance"@ {
            Some(StatQuery::CurrentRunEffectiveDistance)
        } else if s == "score"@ {
            Some(StatQuery::Score)
        } else {
            None
        }
    }

    /// Whether the statistic is a whole number: a distance or a number
    /// of turns. The others are real numbers.
    pub open spec fn is_count(self) -> bool {
        match self {
            StatQuery::TotalDistance
            | StatQuery::TotalTurns
            | StatQuery::BestRunDistance
            | StatQuery::BestRunTurns
            | StatQuery::CurrentRunDistance
            | StatQuery::CurrentRunTurns => true,
            StatQuery::TotalEffectiveDistance
            | StatQuery::BestRunEffectiveDistance
            | StatQuery::CurrentRunEffectiveDistance
            | StatQuery::Score => false,
        }
    }

    /// Returns the wire token of this query.
    pub fn get_string(&self) -> (s: &'static str)
        ensures
            s@ == self.token(),
    {
        match self {
            StatQuery::TotalDistance => "total-distance",
            StatQuery::TotalTurns => "total-turns",
            StatQuery::BestRunDistance => "best-run-distance",
            StatQuery::BestRunTurns => "best-run-turns",
            StatQuery::CurrentRunDistance => "current-run-distance",
            StatQuery::CurrentRunTurns => "current-run-turns",
            StatQuery::TotalEffectiveDistance => "total-effective-distance",
            StatQuery::BestRunEffectiveDistance => "best-run-effective-distance",
            StatQuery::CurrentRunEffectiveDistance => "current-run-effective-distance",
            StatQuery::Score => "score",
        }
    }

    /// Reads a query from its wire token. Any text but the ten tokens is
    /// rejected, and the error holds that text.
    pub fn from_str(s: &str) -> (r: Result<StatQuery, MmsError>)
        ensures
            match r {
                Ok(q) => Self::from_token(s@) == Some(q),
                Err(e) => Self::from_token(s@) is None && (e matches MmsError::ParseStatQueryError(
                    t,
                ) && t@ == s@),
            },
    {
        if str_eq(s, "total-distance") {
            Ok(StatQuery::TotalDistance)
        } else if str_eq(s, "total-turns") {
            Ok(StatQuery::TotalTurns)
        } else if str_eq(s, "best-run-distance") {
            Ok(StatQuery::BestRunDistance)
        } else if str_eq(s, "best-run-turns") {
            Ok(StatQuery::BestRunTurns)
        } else if str_eq(s, "current-run-distance") {
            Ok(StatQuery::CurrentRunDistance)
        } else if str_eq(s, "current-run-turns") {
            Ok(StatQuery::CurrentRunTurns)
        } else if str_eq(s, "total-effective-distance") {
            Ok(StatQuery::TotalEffectiveDistance)
        } else if str_eq(s, "best-run-effective-distance") {
            Ok(StatQuery::BestRunEffectiveDistance)
        } else if str_eq(s, "current-run-effective-distance") {
            Ok(StatQuery::CurrentRunEffectiveDistance)
        } else if str_eq(s, "score") {
            Ok(StatQuery::Score)
        } else {
            Err(MmsError::ParseStatQueryError(s.to_owned()))
        }
    }

    /// Whether the statistic is a whole number.
    pub fn counts(&self) -> (b: bool)
        ensures
            b == self.is_count(),
    {
        match self {
            StatQuery::TotalDistance
            | StatQuery::TotalTurns
            | StatQuery::BestRunDistance
            | StatQuery::BestRunTurns
            | StatQuery::CurrentRunDistance
            | StatQuery::CurrentRunTurns => true,
            StatQuery::TotalEffectiveDistance
            | StatQuery::BestRunEffectiveDistance
            | StatQuery::CurrentRunEffectiveDistance
            | StatQuery::Score => false,
        }
    }
}

impl std::str::FromStr for StatQuery {
    type Err = MmsError;

    /// Reads a query from its wire token, as `StatQuery::from_str` does:
    /// one of the ten tokens gives its query, and any other text is
    /// rejected with an error that holds it.
    fn from_str(s: &str) -> (r: Result<Self, Self::Err>)
        ensures
            match r {
                Ok(q) => StatQuery::from_token(s@) == Some(q),
                Err(e) => StatQuery::from_token(s@) is None && (e matches MmsError::ParseStatQueryError(
                    t,
                ) && t@ == s@),
            },
    {
        StatQuery::from_str(s)
    }
}

impl Stat {
    /// The query that this statistic answers.
    pub open spec fn query(self) -> StatQuery {
        match self {
            Stat::TotalDistance(_) => StatQuery::TotalDistance,
            Stat::TotalTurns(_) => StatQuery::TotalTurns,
            Stat::BestRunDistance(_) => StatQuery::BestRunDistance,
            Stat::BestRunTurns(_) => StatQuery::BestRunTurns,
            Stat::CurrentRunDistance(_) => StatQuery::CurrentRunDistance,
            Stat::CurrentRunTurns(_) => StatQuery::CurrentRunTurns,
            Stat::TotalEffectiveDistance(_) => StatQuery::TotalEffectiveDistance,
            Stat::BestRunEffectiveDistance(_) => StatQuery::BestRunEffectiveDistance,
            Stat::CurrentRunEffectiveDistance(_) => StatQuery::CurrentRunEffectiveDistance,
            Stat::Score(_) => StatQuery::Score,
        }
    }

    /// The value of a statistic that is a whole number.
    pub open spec fn count(self) -> Option<i32> {
        match self {
            Stat::TotalDistance(v)
            | Stat::TotalTurns(v)
            | Stat::BestRunDistance(v)
            | Stat::BestRunTurns(v)
            | Stat::CurrentRunDistance(v)
            | Stat::CurrentRunTurns(v) => Some(v),
            _ => None,
        }
    }

    /// The bit pattern of a statistic that is a real number.
    pub open spec fn bit_pattern(self) -> u32
        recommends
            self.count() is None,
    {
        match self {
            Stat::TotalEffectiveDistance(bits)
            | Stat::BestRunEffectiveDistance(bits)
            | Stat::CurrentRunEffectiveDistance(bits)
            | Stat::Score(bits) => bits,
            _ => 0,
        }
    }

    /// Returns the value of a statistic that is a whole number.
    pub fn count_value(&self) -> (r: Option<i32>)
        ensures
            r == self.count(),
    {
        match self {
            Stat::TotalDistance(v)
            | Stat::TotalTurns(v)
            | Stat::BestRunDistance(v)
            | Stat::BestRunTurns(v)
            | Stat::CurrentRunDistance(v)
            | Stat::CurrentRunTurns(v) => Some(*v),
            _ => None,
        }
    }

    /// Returns the bit pattern of a statistic that is a real number.
    pub(crate) fn real_bits(&self) -> (bits: u32)
        requires
            self.count() is None,
        ensures
            bits == self.bit_pattern(),
    {
        match self {
            Stat::TotalEffectiveDistance(bits)
            | Stat::BestRunEffectiveDistance(bits)
            | Stat::CurrentRunEffectiveDistance(bits)
            | Stat::Score(bits) => *bits,
            _ => 0,
        }
    }

    /// The answer `value` to a query for a whole number.
    pub open spec fn of_count(query: StatQuery, value: i32) -> Stat
        recommends
            query.is_count(),
    {
        match query {
            StatQuery::TotalDistance => Stat::TotalDistance(value),
            StatQuery::TotalTurns => Stat::TotalTurns(value),
            StatQuery::BestRunDistance => Stat::BestRunDistance(value),
            StatQuery::BestRunTurns => Stat::BestRunTurns(value),
            StatQuery::CurrentRunDistance => Stat::CurrentRunDistance(value),
            _ => Stat::CurrentRunTurns(value),
        }
    }

    /// The answer with the bit pattern `bits` to a query for a real
    /// number.
    pub open spec fn of_real(query: StatQuery, bits: u32) -> Stat
        recommends
            !query.is_count(),
    {
        match query {
            StatQuery::TotalEffectiveDistance => Stat::TotalEffectiveDistance(bits),
            StatQuery::BestRunEffectiveDistance => Stat::BestRunEffectiveDistance(bits),
            StatQuery::CurrentRunEffectiveDistance => Stat::CurrentRunEffectiveDistance(bits),
            _ => Stat::Score(bits),
        }
    }

    /// Tags a whole number as the answer to `query`.
    pub(crate) fn from_count(query: &StatQuery, value: i32) -> (stat: Stat)
        requires
            query.is_count(),
        ensures
            stat == Self::of_count(*query, value),
    {
        match query {
            StatQuery::TotalDistance => Stat::TotalDistance(value),
            StatQuery::TotalTurns => Stat::TotalTurns(value),
            StatQuery::BestRunDistance => Stat::BestRunDistance(value),
            StatQuery::BestRunTurns => Stat::BestRunTurns(value),
            StatQuery::CurrentRunDistance => Stat::CurrentRunDistance(value),
            _ => Stat::CurrentRunTurns(value),
        }
    }

    /// Tags the bit pattern of a real number as the answer to `query`.
    pub(crate) fn from_real(query: &StatQuery, bits: u32) -> (stat: Stat)
        requires
            !query.is_count(),
        ensures
            stat == Self::of_real(*query, bits),
    {
        match query {
            StatQuery::TotalEffectiveDistance => Stat::TotalEffectiveDistance(bits),
            StatQuery::BestRunEffectiveDistance => Stat::BestRunEffectiveDistance(bits),
            StatQuery::CurrentRunEffectiveDistance => Stat::CurrentRunEffectiveDistance(bits),
            _ => Stat::Score(bits),
        }
    }
}

/// The lengths of the ten tokens, and the first letters of those that
/// share a length: enough to tell any two of them apart.
proof fn lemma_token_shapes()
    ensures
        "total-distance"@.len() == 14,
        "total-turns"@.len() == 11,
        "best-run-distance"@.len() == 17,
        "best-run-turns"@.len() == 14,
        "current-run-distance"@.len() == 20,
        "current-run-turns"@.len() == 17,
        "total-effective-distance"@.len() == 24,
        "best-run-effective-distance"@.len() == 27,
        "current-run-effective-distance"@.len() == 30,
        "score"@.len() == 5,
        "total-distance"@[0] == 't',
        "best-run-turns"@[0] == 'b',
        "best-run-distance"@[0] == 'b',
        "current-run-turns"@[0] == 'c',
{
    reveal_strlit("total-distance");
    reveal_strlit("total-turns");
    reveal_strlit("best-run-distance");
    reveal_strlit("best-run-turns");
    reveal_strlit("current-run-distance");
    reveal_strlit("current-run-turns");
    reveal_strlit("total-effective-distance");
    reveal_strlit("best-run-effective-distance");
    reveal_strlit("current-run-effective-distance");
    reveal_strlit("score");
}

/// Writing a query and reading the token again gives the query back.
pub proof fn lemma_query_round_trip(q: StatQuery)
    ensures
        StatQuery::from_token(q.token()) == Some(q),
{
    lemma_token_shapes();
}

/// A text that names a query is exactly that query's token.
pub proof fn lemma_query_token_round_trip(s: Seq<char>, q: StatQuery)
    requires
        StatQuery::from_token(s) == Some(q),
    ensures
        s == q.token(),
{
}

/// Different queries have different tokens.
pub proof fn lemma_query_token_injective(a: StatQuery, b: StatQuery)
    requires
        a.token() == b.token(),
    ensures
        a == b,
{
    lemma_query_round_trip(a);
    lemma_query_round_trip(b);
}

/// A text names a query exactly when it is the token of one.
pub proof fn lemma_query_tokens(s: Seq<char>)
    ensures
        StatQuery::from_token(s) is Some <==> exists|q: StatQuery| s == #[trigger] q.token(),
{
    if StatQuery::from_token(s) is Some {
        let q = StatQuery::from_token(s)->0;
        assert(s == q.token());
    }
    if exists|q: StatQuery| s == #[trigger] q.token() {
        let q = choose|q: StatQuery| s == #[trigger] q.token();
        lemma_query_round_trip(q);
    }
}

/// A statistic carries the tag of the query that produced it.
pub proof fn lemma_stat_tag(q: StatQuery, value: i32, bits: u32)
    ensures
        q.is_count() ==> Stat::of_count(q, value).query() == q,
        !q.is_count() ==> Stat::of_real(q, bits).query() == q,
{
}

} // verus!
