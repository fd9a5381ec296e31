//! The low-level parameter set and the shared rendering of single parameters.
//!
//! A [`Params`] value is an ordered sequence of `key=value` strings, built
//! once by a builder's `build` operation and immutable afterwards. Its view is
//! the sequence of the views of its entries. Each optional filter field
//! contributes either nothing (when unset) or exactly one entry, as the
//! `opt_*_param` specification functions state.

use vstd::prelude::*;

verus! {

use crate::datetime::{Date, DateTime, date_str, time_str};
use crate::render::{bool_str, int_str, bool_dec_str, i64_dec_str};
use vstd::string::StringExecFns;

/// The sorting order of results.
#[derive(Clone, Copy, Debug, PartialEq, Eq, Structural)]
pub enum Direction {
    Ascending,
    Descending,
}

/// The rendering of a sort direction: the literal `asc` or `desc`.
pub open spec fn direction_str(d: Direction) -> Seq<char> {
    match d {
        Direction::Ascending => "asc"@,
        Direction::Descending => "desc"@,
    }
}

/// Low level text representation of the API parameters sent to the server.
#[derive(Debug)]
pub struct Params(pub Vec<String>);

impl View for Params {
    type V = Seq<Seq<char>>;

    open spec fn view(&self) -> Seq<Seq<char>> {
        self.0.deep_view()
    }
}

/// A single `key=value` entry.
pub open spec fn eq_join(name: Seq<char>, value: Seq<char>) -> Seq<char> {
    name + seq!['='] + value
}

/// An optional integer filter: one decimal entry when set, nothing otherwise.
pub open spec fn opt_int_param(name: Seq<char>, v: Option<i64>) -> Seq<Seq<char>> {
    match v {
        Some(i) => seq![eq_join(name, int_str(i as int))],
        None => Seq::empty(),
    }
}

/// An optional text filter: one literal entry when set, nothing otherwise.
pub open spec fn opt_str_param(name: Seq<char>, v: Option<Seq<char>>) -> Seq<Seq<char>> {
    match v {
        Some(s) => seq![eq_join(name, s)],
        None => Seq::empty(),
    }
}

/// An optional boolean filter: one `true`/`false` entry when set.
pub open spec fn opt_bool_param(name: Seq<char>, v: Option<bool>) -> Seq<Seq<char>> {
    match v {
        Some(b) => seq![eq_join(name, bool_str(b))],
        None => Seq::empty(),
    }
}

/// An optional calendar-date filter: one `YYYY-MM-DD` entry when set.
pub open spec fn opt_date_param(name: Seq<char>, v: Option<Date>) -> Seq<Seq<char>> {
    match v {
        Some(d) => seq![eq_join(name, date_str(d))],
        None => Seq::empty(),
    }
}

/// The modified-since filter: one `<date>T<time>Z` entry when set. The
/// trailing `Z` is a literal character, not a computed zone designator.
pub open spec fn opt_modified_since_param(v: Option<DateTime>) -> Seq<Seq<char>> {
    match v {
        Some(dt) => seq![
            eq_join("modified_since"@, date_str(dt.date) + seq!['T'] + time_str(dt.time) + seq!['Z']),
        ],
        None => Seq::empty(),
    }
}

/// The sort-direction filter: one `direction=asc` or `direction=desc` entry
/// when set.
pub open spec fn opt_direction_param(v: Option<Direction>) -> Seq<Seq<char>> {
    match v {
        Some(d) => seq![eq_join("direction"@, direction_str(d))],
        None => Seq::empty(),
    }
}

/// Append the single entry `name=value`.
pub(crate) fn push_param(params: &mut Vec<String>, name: &str, value: &str)
    ensures
        final(params).deep_view() == old(params).deep_view().push(eq_join(name@, value@)),
{
    let mut s = name.to_owned();
    s.append("=");
    s.append(value);
    proof {
        reveal_strlit("=");
        assert(s@ =~= eq_join(name@, value@));
    }
    params.push(s);
    proof {
        assert(params.deep_view() =~= old(params).deep_view().push(eq_join(name@, value@)));
    }
}

/// Append an optional integer filter.
pub(crate) fn push_opt_int(params: &mut Vec<String>, name: &str, v: &Option<i64>)
    ensures
        final(params).deep_view() == old(params).deep_view() + opt_int_param(name@, *v),
{
    if let Some(i) = v {
        push_param(params, name, i64_dec_str(*i).as_str());
    }
    proof {
        assert(params.deep_view() =~= old(params).deep_view() + opt_int_param(name@, *v));
    }
}

/// Append an optional text filter.
pub(crate) fn push_opt_str(params: &mut Vec<String>, name: &str, v: &Option<String>)
    ensures
        final(params).deep_view() == old(params).deep_view() + opt_str_param(name@, v.deep_view()),
{
    if let Some(s) = v {
        push_param(params, name, s.as_str());
    }
    proof {
        assert(params.deep_view() =~= old(params).deep_view() + opt_str_param(
            name@,
            v.deep_view(),
        ));
    }
}

/// Append an optional boolean filter.
pub(crate) fn push_opt_bool(params: &mut Vec<String>, name: &str, v: &Option<bool>)
    ensures
        final(params).deep_view() == old(params).deep_view() + opt_bool_param(name@, *v),
{
    if let Some(b) = v {
        push_param(params, name, bool_dec_str(*b).as_str());
    }
    proof {
        assert(params.deep_view() =~= old(params).deep_view() + opt_bool_param(name@, *v));
    }
}

/// Append an optional calendar-date filter.
pub(crate) fn push_opt_date(params: &mut Vec<String>, name: &str, v: &Option<Date>)
    ensures
        final(params).deep_view() == old(params).deep_view() + opt_date_param(name@, *v),
{
    if let Some(d) = v {
        push_param(params, name, crate::datetime::render_date(d).as_str());
    }
    proof {
        assert(params.deep_view() =~= old(params).deep_view() + opt_date_param(name@, *v));
    }
}

/// Append the modified-since filter, rendered `<date>T<time>Z`.
pub(crate) fn push_opt_modified_since(params: &mut Vec<String>, v: &Option<DateTime>)
    ensures
        final(params).deep_view() == old(params).deep_view() + opt_modified_since_param(*v),
{
    if let Some(dt) = v {
        let mut value = crate::datetime::render_date(&dt.date);
        value.append("T");
        value.append(crate::datetime::render_time(&dt.time).as_str());
        value.append("Z");
        proof {
            reveal_strlit("T");
            reveal_strlit("Z");
            assert(value@ =~= date_str(dt.date) + seq!['T'] + time_str(dt.time) + seq!['Z']);
        }
        push_param(params, "modified_since", value.as_str());
    }
    proof {
        assert(params.deep_view() =~= old(params).deep_view() + opt_modified_since_param(*v));
    }
}

/// Append the sort-direction filter, rendered `asc` or `desc`.
pub(crate) fn push_opt_direction(params: &mut Vec<String>, v: &Option<Direction>)
    ensures
        final(params).deep_view() == old(params).deep_view() + opt_direction_param(*v),
{
    if let Some(d) = v {
        match d {
            Direction::Ascending => push_param(params, "direction", "asc"),
            Direction::Descending => push_param(params, "direction", "desc"),
        }
    }
    proof {
        assert(params.deep_view() =~= old(params).deep_view() + opt_direction_param(*v));
    }
}

/// The entries joined with `&`, in order, with no trailing separator.
pub open spec fn join_amp(entries: Seq<Seq<char>>) -> Seq<char>
    decreases entries.len(),
{
    if entries.len() == 0 {
        Seq::empty()
    } else if entries.len() == 1 {
        entries[0]
    } else {
        entries[0] + seq!['&'] + join_amp(entries.drop_first())
    }
}

/// Appending one entry to a join appends `&` and the entry, unless the join
/// was empty.
pub proof fn lemma_join_amp_push(entries: Seq<Seq<char>>, e: Seq<char>)
    ensures
        join_amp(entries.push(e)) == if entries.len() == 0 {
            e
        } else {
            (join_amp(entries) + seq!['&'] + e)
        },
    decreases entries.len(),
{
    if entries.len() == 0 {
        assert(entries.push(e)[0] == e);
    } else {
        assert(entries.push(e).drop_first() =~= entries.drop_first().push(e));
        lemma_join_amp_push(entries.drop_first(), e);
        if entries.len() == 1 {
            assert(join_amp(entries) == entries[0]);
        }
    }
}

impl Params {
    /// How many entries the set holds.
    pub fn len(&self) -> (n: usize)
        ensures
            n == self@.len(),
    {
        proof {
            assert(self@.len() == self.0@.len());
        }
        self.0.len()
    }

    /// The entry at position `i`.
    pub fn get(&self, i: usize) -> (r: &String)
        requires
            i < self@.len(),
        ensures
            r@ == self@[i as int],
    {
        proof {
            assert(self@.len() == self.0@.len());
        }
        &self.0[i]
    }

    /// All entries joined with `&`, the literal query string of the set.
    pub fn query_string(&self) -> (r: String)
        ensures
            r@ == join_amp(self@),
    {
        let mut s = String::new();
        let n = self.0.len();
        proof {
            assert(self@.len() == self.0@.len());
        }
        let mut i: usize = 0;
        while i < n
            invariant
                n == self.0.len(),
                self@.len() == n,
                i <= n,
                s@ == join_amp(self@.take(i as int)),
            decreases n - i,
        {
            if i > 0 {
                s.append("&");
            }
            s.append(self.0[i].as_str());
            proof {
                reveal_strlit("&");
                lemma_join_amp_push(self@.take(i as int), self@[i as int]);
                assert(self@.take(i as int).push(self@[i as int]) =~= self@.take(i as int + 1));
            }
            i += 1;
        }
        proof {
            assert(self@.take(n as int) =~= self@);
        }
        s
    }
}


/// The sort-direction filter renders exactly `direction=asc` for ascending
/// order and exactly `direction=desc` for descending order.
pub proof fn lemma_direction_rendering()
    ensures
        opt_direction_param(Some(Direction::Ascending)) == seq!["direction=asc"@],
        opt_direction_param(Some(Direction::Descending)) == seq!["direction=desc"@],
{
    reveal_strlit("direction");
    reveal_strlit("asc");
    reveal_strlit("desc");
    reveal_strlit("direction=asc");
    reveal_strlit("direction=desc");
    assert(eq_join("direction"@, "asc"@) =~= "direction=asc"@);
    assert(eq_join("direction"@, "desc"@) =~= "direction=desc"@);
    assert(opt_direction_param(Some(Direction::Ascending)) =~= seq!["direction=asc"@]);
    assert(opt_direction_param(Some(Direction::Descending)) =~= seq!["direction=desc"@]);
}

} // verus!
