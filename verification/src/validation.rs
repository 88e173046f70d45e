//! Field checks of request bodies, as the `validator` crate performs them:
//! lengths count characters, ranges are inclusive, addresses follow the
//! HTML5 e-mail grammar. The failures come out in field order.

use vstd::prelude::*;
use crate::text::str_eq;

verus! {

/// One failed check: the field and the check's code.
#[derive(Clone, Copy, Debug)]
pub struct FieldError {
    pub field: &'static str,
    pub code: &'static str,
}

/// The field and code of each failure.
pub open spec fn error_views(v: Seq<FieldError>) -> Seq<(Seq<char>, Seq<char>)> {
    Seq::new(v.len(), |i: int| (v[i].field@, v[i].code@))
}

/// Whether `validator::validate_email` accepts a string (the HTML5 grammar
/// for e-mail addresses, with IDN domains).
pub uninterp spec fn email_valid_spec(s: Seq<char>) -> bool;

/// `validator::validate_email`. Besides naming the result, the contract
/// states what its source checks first: an empty string, or one without `@`,
/// is refused.
#[verifier::external_body]
pub(crate) fn validate_email(s: &str) -> (r: bool)
    ensures
        r == email_valid_spec(s@),
        r ==> s@.len() > 0 && s@.contains('@'),
{
    validator::validate_email(s)
}

/// The failure of a minimum-length check.
pub open spec fn length_check(field: Seq<char>, value: Seq<char>, min: nat) -> Seq<(Seq<char>, Seq<char>)> {
    if value.len() < min {
        seq![(field, "length"@)]
    } else {
        seq![]
    }
}

/// The failure of an inclusive range check.
pub open spec fn range_check(field: Seq<char>, value: int, min: int, max: int) -> Seq<(Seq<char>, Seq<char>)> {
    if value < min || value > max {
        seq![(field, "range"@)]
    } else {
        seq![]
    }
}

/// The failure of an e-mail check.
pub open spec fn email_check(field: Seq<char>, value: Seq<char>) -> Seq<(Seq<char>, Seq<char>)> {
    if !email_valid_spec(value) {
        seq![(field, "email"@)]
    } else {
        seq![]
    }
}

/// Whether a game id is one of the known games.
pub open spec fn known_game(game_id: Seq<char>, games: Seq<&str>) -> bool {
    exists|i: int| 0 <= i < games.len() && games[i]@ == game_id
}

/// The failure of the known-game check.
pub open spec fn game_check(field: Seq<char>, value: Seq<char>, games: Seq<&str>) -> Seq<(Seq<char>, Seq<char>)> {
    if !known_game(value, games) {
        seq![(field, "Game ID is not valid"@)]
    } else {
        seq![]
    }
}

/// Appending failures keeps the earlier ones, and a single appended failure
/// is among the result.
pub proof fn lemma_appended(a: Seq<(Seq<char>, Seq<char>)>, b: Seq<(Seq<char>, Seq<char>)>)
    ensures
        forall|x: (Seq<char>, Seq<char>)| a.contains(x) ==> #[trigger] (a + b).contains(x),
        b.len() == 1 ==> (a + b).contains(b[0]),
{
    assert forall|x: (Seq<char>, Seq<char>)| a.contains(x) implies #[trigger] (a + b).contains(x) by {
        let i = choose|i: int| 0 <= i < a.len() && a[i] == x;
        assert((a + b)[i] == x);
    }
    if b.len() == 1 {
        assert((a + b)[a.len() as int] == b[0]);
    }
}

/// Adds the failure of a minimum-length check, if it fails.
pub fn check_length(errors: &mut Vec<FieldError>, field: &'static str, value: &str, min: usize)
    ensures
        error_views(final(errors)@) == error_views(old(errors)@) + length_check(field@, value@, min as nat),
        forall|x: (Seq<char>, Seq<char>)|
            error_views(old(errors)@).contains(x) ==> #[trigger] error_views(final(errors)@).contains(x),
        value@.len() < min ==> error_views(final(errors)@).contains((field@, "length"@)),
        final(errors)@.len() == old(errors)@.len() + if value@.len() < min {
            1int
        } else {
            0int
        },
{
    if value.unicode_len() < min {
        errors.push(FieldError { field, code: "length" });
    }
    assert(error_views(final(errors)@) =~= error_views(old(errors)@) + length_check(field@, value@, min as nat));
    proof {
        lemma_appended(error_views(old(errors)@), length_check(field@, value@, min as nat));
    }
}

/// Adds the failure of an inclusive range check, if it fails.
pub fn check_range(errors: &mut Vec<FieldError>, field: &'static str, value: i64, min: i64, max: i64)
    ensures
        error_views(final(errors)@) == error_views(old(errors)@) + range_check(
            field@,
            value as int,
            min as int,
            max as int,
        ),
        forall|x: (Seq<char>, Seq<char>)|
            error_views(old(errors)@).contains(x) ==> #[trigger] error_views(final(errors)@).contains(x),
        (value < min || value > max) ==> error_views(final(errors)@).contains((field@, "range"@)),
        final(errors)@.len() == old(errors)@.len() + if (value < min || value > max) {
            1int
        } else {
            0int
        },
{
    if value < min || value > max {
        errors.push(FieldError { field, code: "range" });
    }
    assert(error_views(final(errors)@) =~= error_views(old(errors)@) + range_check(
        field@,
        value as int,
        min as int,
        max as int,
    ));
    proof {
        lemma_appended(error_views(old(errors)@), range_check(
            field@,
            value as int,
            min as int,
            max as int,
        ));
    }
}

/// Adds the failure of an e-mail check, if it fails.
pub fn check_email(errors: &mut Vec<FieldError>, field: &'static str, value: &str)
    ensures
        error_views(final(errors)@) == error_views(old(errors)@) + email_check(field@, value@),
        forall|x: (Seq<char>, Seq<char>)|
            error_views(old(errors)@).contains(x) ==> #[trigger] error_views(final(errors)@).contains(x),
        !email_valid_spec(value@) ==> error_views(final(errors)@).contains((field@, "email"@)),
        final(errors)@.len() == old(errors)@.len() + if !email_valid_spec(value@) {
            1int
        } else {
            0int
        },
{
    if !validate_email(value) {
        errors.push(FieldError { field, code: "email" });
    }
    assert(error_views(final(errors)@) =~= error_views(old(errors)@) + email_check(field@, value@));
    proof {
        lemma_appended(error_views(old(errors)@), email_check(field@, value@));
    }
}

/// Whether a game id is one of the known games.
pub fn is_known_game(game_id: &str, games: &[&str]) -> (r: bool)
    ensures
        r == known_game(game_id@, games@),
{
    let mut i: usize = 0;
    while i < games.len()
        invariant
            i <= games.len(),
            forall|j: int| 0 <= j < i ==> games@[j]@ != game_id@,
        decreases games.len() - i,
    {
        if str_eq(games[i], game_id) {
            return true;
        }
        i = i + 1;
    }
    false
}

/// Adds the failure of the known-game check, if it fails.
pub fn check_game(errors: &mut Vec<FieldError>, field: &'static str, value: &str, games: &[&str])
    ensures
        error_views(final(errors)@) == error_views(old(errors)@) + game_check(field@, value@, games@),
        forall|x: (Seq<char>, Seq<char>)|
            error_views(old(errors)@).contains(x) ==> #[trigger] error_views(final(errors)@).contains(x),
        !known_game(value@, games@) ==> error_views(final(errors)@).contains((field@, "Game ID is not valid"@)),
        final(errors)@.len() == old(errors)@.len() + if !known_game(value@, games@) {
            1int
        } else {
            0int
        },
{
    if !is_known_game(value, games) {
        errors.push(FieldError { field, code: "Game ID is not valid" });
    }
    assert(error_views(final(errors)@) =~= error_views(old(errors)@) + game_check(field@, value@, games@));
    proof {
        lemma_appended(error_views(old(errors)@), game_check(field@, value@, games@));
    }
}

/// Whether a skill level is one of a game's levels; the level is taken as a
/// byte, as the handlers compare it.
pub fn skill_level_allowed(levels: &[u8], skill_level: i16) -> (r: bool)
    ensures
        r == exists|i: int| 0 <= i < levels@.len() && levels@[i] == (skill_level as u8),
{
    let level = skill_level as u8;
    let mut i: usize = 0;
    while i < levels.len()
        invariant
            i <= levels.len(),
            level == (skill_level as u8),
            forall|j: int| 0 <= j < i ==> levels@[j] != level,
        decreases levels.len() - i,
    {
        if levels[i] == level {
            return true;
        }
        i = i + 1;
    }
    false
}

} // verus!

verus! {

/// The field that a unique-violation names, by the violated constraint: the
/// field of the first rule whose constraint it is, if any.
pub open spec fn uniqueness_field(constraint: Option<Seq<char>>, rules: Seq<(&str, &str)>) -> Option<Seq<char>>
    decreases rules.len(),
{
    match constraint {
        None => None,
        Some(c) => if rules.len() == 0 {
            None
        } else if rules[0].0@ == c {
            Some(rules[0].1@)
        } else {
            uniqueness_field(constraint, rules.drop_first())
        },
    }
}

/// The failure reported for a unique-violation of the database: the field of
/// the constraint's rule with the code `uniqueness`, or `None` when no rule
/// names the constraint (then the failure is an internal error).
pub fn uniqueness_error(constraint: Option<&str>, rules: &[(&str, &'static str)]) -> (r: Option<FieldError>)
    ensures
        match uniqueness_field(
            match constraint {
                Some(c) => Some(c@),
                None => None,
            },
            rules@,
        ) {
            Some(f) => r matches Some(e) && e.field@ == f && e.code@ == "uniqueness"@,
            None => r is None,
        },
{
    let c = match constraint {
        Some(c) => c,
        None => return None,
    };
    let mut i: usize = 0;
    assert(rules@.skip(0) =~= rules@);
    while i < rules.len()
        invariant
            i <= rules.len(),
            constraint == Some(c),
            uniqueness_field(Some(c@), rules@) == uniqueness_field(Some(c@), rules@.skip(i as int)),
        decreases rules.len() - i,
    {
        assert(rules@.skip(i as int)[0] == rules@[i as int]);
        assert(rules@.skip(i as int).drop_first() =~= rules@.skip(i + 1));
        if str_eq(rules[i].0, c) {
            assert(uniqueness_field(Some(c@), rules@.skip(i as int)) == Some(rules@[i as int].1@));
            let e = FieldError { field: rules[i].1, code: "uniqueness" };
            return Some(e);
        }
        i = i + 1;
    }
    None
}

/// Why a request was refused before any outside call was made: its fields
/// failed their checks (answered with the failures), or it was refused with
/// an HTTP status.
pub enum Refusal {
    Invalid(Vec<FieldError>),
    Status(u16),
}

} // verus!
