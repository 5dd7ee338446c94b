//! Collision-free backup names. When the link location is occupied by
//! something that is not the expected symlink, the occupant is renamed to
//! `<name>-<stamp>`, or to `<name>-<stamp>-<i>` with the smallest `i` that
//! names nothing already present beside it.

use vstd::prelude::*;
use vstd::arithmetic::div_mod::lemma_fundamental_div_mod;
use vstd::string::StringExecFns;
use crate::date::{digit_char, digit_str};

verus! {

/// The decimal digits of `n`, most significant first, no leading zeros
/// (a single `0` for zero).
pub open spec fn dec_digits(n: nat) -> Seq<char>
    decreases n,
{
    if n < 10 {
        seq![digit_char(n)]
    } else {
        dec_digits(n / 10).push(digit_char(n % 10))
    }
}

/// The `i`-th candidate backup name for a displaced entry called `base`:
/// `base-stamp` first, then `base-stamp-1`, `base-stamp-2`, and so on.
pub open spec fn backup_candidate(base: Seq<char>, stamp: Seq<char>, i: nat) -> Seq<char> {
    if i == 0 {
        base + seq!['-'] + stamp
    } else {
        base + seq!['-'] + stamp + seq!['-'] + dec_digits(i)
    }
}

/// Whether one of `names` reads exactly `s`.
pub open spec fn contains_name(names: Seq<String>, s: Seq<char>) -> bool {
    exists|j: int| 0 <= j < names.len() && names[j]@ == s
}

/// A decimal rendering is never empty.
proof fn lemma_dec_digits_len(n: nat)
    ensures
        dec_digits(n).len() >= 1,
    decreases n,
{
    if n >= 10 {
        lemma_dec_digits_len(n / 10);
    }
}

/// Distinct numbers render to distinct digit strings.
proof fn lemma_dec_digits_injective(a: nat, b: nat)
    requires
        dec_digits(a) == dec_digits(b),
    ensures
        a == b,
    decreases a + b,
{
    if a < 10 && b < 10 {
        assert(dec_digits(a)[0] == dec_digits(b)[0]);
        assert(seq![digit_char(a)][0] == digit_char(a));
        assert(seq![digit_char(b)][0] == digit_char(b));
        assert(digit_char(a) == digit_char(b));
        assert(a == b);
    } else if a < 10 && b >= 10 {
        lemma_dec_digits_len(b / 10);
        assert(dec_digits(b).len() >= 2);
        assert(dec_digits(a).len() == 1);
    } else if a >= 10 && b < 10 {
        lemma_dec_digits_len(a / 10);
        assert(dec_digits(a).len() >= 2);
        assert(dec_digits(b).len() == 1);
    } else {
        assert(dec_digits(a) == dec_digits(a / 10).push(digit_char(a % 10)));
        assert(dec_digits(b) == dec_digits(b / 10).push(digit_char(b % 10)));
        assert(dec_digits(a).last() == digit_char(a % 10));
        assert(dec_digits(b).last() == digit_char(b % 10));
        assert(digit_char(a % 10) == digit_char(b % 10));
        assert(a % 10 == b % 10);
        assert(dec_digits(a).drop_last() =~= dec_digits(a / 10));
        assert(dec_digits(b).drop_last() =~= dec_digits(b / 10));
        lemma_dec_digits_injective(a / 10, b / 10);
        lemma_fundamental_div_mod(a as int, 10);
        lemma_fundamental_div_mod(b as int, 10);
        assert(a == 10 * (a / 10) + (a % 10));
        assert(b == 10 * (b / 10) + (b % 10));
        assert(a == b);
    }
}

/// For one base and stamp, distinct indices give distinct candidate names.
pub proof fn lemma_candidate_injective(base: Seq<char>, stamp: Seq<char>, i: nat, j: nat)
    requires
        backup_candidate(base, stamp, i) == backup_candidate(base, stamp, j),
    ensures
        i == j,
{
    let pre = base + seq!['-'] + stamp;
    if i == 0 && j != 0 {
        lemma_dec_digits_len(j);
        assert(backup_candidate(base, stamp, j).len() >= pre.len() + 2);
    } else if i != 0 && j == 0 {
        lemma_dec_digits_len(i);
        assert(backup_candidate(base, stamp, i).len() >= pre.len() + 2);
    } else if i != 0 && j != 0 {
        let di = dec_digits(i);
        let dj = dec_digits(j);
        let ci = backup_candidate(base, stamp, i);
        let cj = backup_candidate(base, stamp, j);
        assert(ci == pre + seq!['-'] + di);
        assert(cj == pre + seq!['-'] + dj);
        assert(ci.len() == pre.len() + 1 + di.len());
        assert(cj.len() == pre.len() + 1 + dj.len());
        assert(di.len() == dj.len());
        assert forall|t: int| 0 <= t < di.len() implies di[t] == dj[t] by {
            assert(ci[pre.len() + 1 + t] == di[t]);
            assert(cj[pre.len() + 1 + t] == dj[t]);
        }
        assert(di =~= dj);
        lemma_dec_digits_injective(i, j);
    }
}

/// If the first `m` candidates all occur among `names`, then `names` holds at
/// least `m` entries: candidates are pairwise distinct, so each needs an
/// entry of its own.
proof fn lemma_candidates_bound(names: Seq<String>, base: Seq<char>, stamp: Seq<char>, m: nat)
    requires
        forall|k: nat| k < m ==> contains_name(names, backup_candidate(base, stamp, k)),
    ensures
        m <= names.len(),
    decreases m,
{
    if m > 0 {
        let last_cand = backup_candidate(base, stamp, (m - 1) as nat);
        assert(contains_name(names, last_cand));
        let j = choose|j: int| 0 <= j < names.len() && names[j]@ == last_cand;
        let rest = names.subrange(0, j) + names.subrange(j + 1, names.len() as int);
        assert(rest.len() == names.len() - 1);
        assert forall|k: nat| k < m - 1 implies contains_name(
            rest,
            backup_candidate(base, stamp, k),
        ) by {
            assert(contains_name(names, backup_candidate(base, stamp, k)));
            let q = choose|q: int|
                0 <= q < names.len() && names[q]@ == backup_candidate(base, stamp, k);
            if q == j {
                lemma_candidate_injective(base, stamp, k, (m - 1) as nat);
                assert(false);
            } else if q < j {
                assert(rest[q] == names[q]);
                assert(rest[q]@ == backup_candidate(base, stamp, k));
            } else {
                assert(rest[q - 1] == names[q]);
                assert(rest[q - 1]@ == backup_candidate(base, stamp, k));
            }
        }
        lemma_candidates_bound(rest, base, stamp, (m - 1) as nat);
    }
}

/// Appends the decimal digits of `n`.
fn push_decimal(s: &mut String, n: u64)
    ensures
        final(s)@ == old(s)@ + dec_digits(n as nat),
    decreases n,
{
    if n >= 10 {
        push_decimal(s, n / 10);
    }
    s.append(digit_str((n % 10) as u32));
    proof {
        assert(s@ =~= old(s)@ + dec_digits(n as nat));
    }
}

/// Builds the `i`-th candidate backup name.
fn candidate_string(base: &str, stamp: &str, i: u64) -> (r: String)
    ensures
        r@ == backup_candidate(base@, stamp@, i as nat),
{
    let mut r = String::new();
    r.append(base);
    r.append("-");
    r.append(stamp);
    if i > 0 {
        r.append("-");
        push_decimal(&mut r, i);
    }
    proof {
        reveal_strlit("-");
        assert(r@ =~= backup_candidate(base@, stamp@, i as nat));
    }
    r
}

/// Whether `s` reads the same as one of `names`.
fn contains_str(names: &Vec<String>, s: &String) -> (r: bool)
    ensures
        r == contains_name(names@, s@),
{
    let mut j: usize = 0;
    while j < names.len()
        invariant
            j <= names.len(),
            forall|k: int| 0 <= k < j ==> names@[k]@ != s@,
        decreases names.len() - j,
    {
        if names[j].eq(s) {
            return true;
        }
        j = j + 1;
    }
    false
}

/// Chooses the name that a conflicting entry at the link location is renamed
/// to: the first of `base-stamp`, `base-stamp-1`, `base-stamp-2`, ... that
/// occurs nowhere among `existing`, the names already present beside it.
/// The choice collides with no existing name, and every smaller candidate is
/// taken.
pub fn rename_to_avoid_collision(base: &str, stamp: &str, existing: &Vec<String>) -> (r: String)
    ensures
        !contains_name(existing@, r@),
        exists|i: nat|
            r@ == backup_candidate(base@, stamp@, i) && (forall|k: nat|
                k < i ==> contains_name(existing@, backup_candidate(base@, stamp@, k))),
{
    let n = existing.len();
    let mut i: u64 = 0;
    loop
        invariant
            existing@.len() == n as nat,
            i <= existing@.len(),
            forall|k: nat| k < i ==> contains_name(existing@, backup_candidate(base@, stamp@, k)),
        decreases existing@.len() - i,
    {
        let cand = candidate_string(base, stamp, i);
        if !contains_str(existing, &cand) {
            proof {
                let wit = i as nat;
                assert(cand@ == backup_candidate(base@, stamp@, wit) && (forall|k: nat|
                    k < wit ==> contains_name(existing@, backup_candidate(base@, stamp@, k))));
            }
            return cand;
        }
        proof {
            lemma_candidates_bound(existing@, base@, stamp@, (i + 1) as nat);
        }
        i = i + 1;
    }
}

/// Backup choices are monotone: suppose one choice was made against the names
/// `names1` and came out as candidate `i1`, the chosen name then came into
/// being, and a second choice is made against names `names2` that include
/// everything of `names1` and the first choice. Then the second choice
/// carries a strictly larger index, and so is a different name.
pub proof fn lemma_backup_choices_monotonic(
    base: Seq<char>,
    stamp: Seq<char>,
    names1: Seq<String>,
    names2: Seq<String>,
    i1: nat,
    i2: nat,
)
    requires
        !contains_name(names1, backup_candidate(base, stamp, i1)),
        forall|k: nat| k < i1 ==> contains_name(names1, backup_candidate(base, stamp, k)),
        !contains_name(names2, backup_candidate(base, stamp, i2)),
        forall|k: nat| k < i2 ==> contains_name(names2, backup_candidate(base, stamp, k)),
        forall|s: Seq<char>| contains_name(names1, s) ==> contains_name(names2, s),
        contains_name(names2, backup_candidate(base, stamp, i1)),
    ensures
        i2 > i1,
        backup_candidate(base, stamp, i2) != backup_candidate(base, stamp, i1),
{
    if i2 == i1 {
        assert(false);
    } else if i2 < i1 {
        assert(contains_name(names1, backup_candidate(base, stamp, i2)));
        assert(contains_name(names2, backup_candidate(base, stamp, i2)));
        assert(false);
    }
    if backup_candidate(base, stamp, i2) == backup_candidate(base, stamp, i1) {
        lemma_candidate_injective(base, stamp, i1, i2);
        assert(false);
    }
}

} // verus!
