//! Version strings of the form `major.minor.patch`.

use crate::error::Error;
use vstd::prelude::*;

verus! {

/// A version a base game may be pinned to.
#[derive(Clone, Copy, Debug, PartialEq, Eq, Structural)]
pub enum BaseGameVersion {
    /// Any version of the game (`*`).
    Wild,
    Version(usize, usize, usize),
}

pub open spec fn is_digit(c: char) -> bool {
    '0' <= c && c <= '9'
}

/// The value of a run of decimal digits.
pub open spec fn digits_value(s: Seq<char>) -> nat
    decreases s.len(),
{
    if s.len() == 0 {
        0
    } else {
        digits_value(s.drop_last()) * 10 + ((s.last() as nat) - ('0' as nat)) as nat
    }
}

/// The text without its leading `+`, if it has one.
pub open spec fn unsigned_part(s: Seq<char>) -> Seq<char> {
    if s.len() > 0 && s[0] == '+' {
        s.drop_first()
    } else {
        s
    }
}

pub open spec fn all_digits(d: Seq<char>) -> bool {
    forall|i: int| 0 <= i < d.len() ==> is_digit(#[trigger] d[i])
}

/// The number a text denotes as an unsigned machine integer: an optional `+`,
/// then one or more decimal digits whose value fits in `usize`.
pub open spec fn number_of(s: Seq<char>) -> Option<nat> {
    let d = unsigned_part(s);
    if d.len() > 0 && all_digits(d) && digits_value(d) <= usize::MAX {
        Some(digits_value(d))
    } else {
        None
    }
}

/// The pieces of `s` between the dots (one piece more than there are dots).
pub open spec fn parts_of(s: Seq<char>) -> Seq<Seq<char>>
    decreases s.len(),
{
    if s.len() == 0 {
        seq![Seq::empty()]
    } else {
        let p = parts_of(s.drop_last());
        if s.last() == '.' {
            p.push(Seq::empty())
        } else {
            p.update(p.len() - 1, p.last().push(s.last()))
        }
    }
}

/// Every piece of the version is a number.
pub open spec fn all_numbers(ps: Seq<Seq<char>>) -> bool {
    forall|i: int| 0 <= i < ps.len() ==> (#[trigger] number_of(ps[i])).is_some()
}

/// What parsing `s` as a version gives: its first three pieces, when every
/// piece is a number and there are at least three.
pub open spec fn triple_of(s: Seq<char>) -> Result<(usize, usize, usize), Error> {
    let ps = parts_of(s);
    if !all_numbers(ps) {
        Err(Error::VersionNotANumber)
    } else if ps.len() < 3 {
        Err(Error::VersionMissingNumber)
    } else {
        Ok(
            (
                number_of(ps[0]).unwrap() as usize,
                number_of(ps[1]).unwrap() as usize,
                number_of(ps[2]).unwrap() as usize,
            ),
        )
    }
}

pub open spec fn base_game_version_of(s: Seq<char>) -> Result<BaseGameVersion, Error> {
    match triple_of(s) {
        Ok(t) => Ok(BaseGameVersion::Version(t.0, t.1, t.2)),
        Err(_) => if s == "*"@ {
            Ok(BaseGameVersion::Wild)
        } else {
            Err(Error::InvalidBaseGameVersion)
        },
    }
}

/// Reads `s[start..end]` as an unsigned number, as `usize::from_str` does.
fn parse_number(s: &str, start: usize, end: usize) -> (r: Option<usize>)
    requires
        start <= end <= s@.len(),
    ensures
        match number_of(s@.subrange(start as int, end as int)) {
            Some(n) => r == Some(n as usize),
            None => r.is_none(),
        },
{
    let ghost text = s@.subrange(start as int, end as int);
    let mut first = start;
    if start < end && s.get_char(start) == '+' {
        first = start + 1;
    }
    let ghost d = s@.subrange(first as int, end as int);
    assert(d =~= unsigned_part(text));
    if first == end {
        return None;
    }
    let mut acc: usize = 0;
    let mut overflow = false;
    let mut i = first;
    while i < end
        invariant
            first <= i <= end <= s@.len(),
            d == s@.subrange(first as int, end as int),
            text == s@.subrange(start as int, end as int),
            d == unsigned_part(text),
            forall|k: int| first <= k < i ==> is_digit(#[trigger] s@[k]),
            !overflow ==> acc == digits_value(s@.subrange(first as int, i as int)),
            overflow ==> digits_value(s@.subrange(first as int, i as int)) > usize::MAX,
        decreases end - i,
    {
        let c = s.get_char(i);
        if !('0' <= c && c <= '9') {
            assert(!is_digit(d[i - first]));
            return None;
        }
        let ghost pre = s@.subrange(first as int, i as int);
        let ghost next = s@.subrange(first as int, i + 1);
        assert(next.drop_last() =~= pre);
        let dv = (c as u32 - '0' as u32) as usize;
        assert(digits_value(next) == digits_value(pre) * 10 + dv);
        if !overflow {
            if acc > (usize::MAX - dv) / 10 {
                overflow = true;
            } else {
                acc = acc * 10 + dv;
            }
        }
        i = i + 1;
    }
    assert(s@.subrange(first as int, i as int) =~= d);
    assert(forall|k: int| 0 <= k < d.len() ==> is_digit(#[trigger] d[k])) by {
        assert forall|k: int| 0 <= k < d.len() implies is_digit(#[trigger] d[k]) by {
            assert(d[k] == s@[first + k]);
        }
    }
    if overflow {
        None
    } else {
        Some(acc)
    }
}

/// Parses `major.minor.patch`; further components are checked but ignored.
pub fn version_as_array(version: &str) -> (r: Result<(usize, usize, usize), Error>)
    ensures
        r == triple_of(version@),
{
    let n = version.unicode_len();
    let mut vals: Vec<usize> = Vec::new();
    let mut ok = true;
    let mut start: usize = 0;
    let mut i: usize = 0;
    let ghost mut done: Seq<Seq<char>> = Seq::empty();
    assert(version@.subrange(0, 0) =~= Seq::<char>::empty());
    assert(parts_of(Seq::<char>::empty()) == done.push(version@.subrange(0, 0)));
    while i < n
        invariant
            n == version@.len(),
            start <= i <= n,
            parts_of(version@.subrange(0, i as int)) == done.push(
                version@.subrange(start as int, i as int),
            ),
            vals@.len() == done.len(),
            ok == all_numbers(done),
            forall|j: int|
                0 <= j < done.len() && (#[trigger] number_of(done[j])).is_some() ==> vals@[j]
                    == number_of(done[j]).unwrap() as usize,
        decreases n - i,
    {
        let c = version.get_char(i);
        let ghost pre = version@.subrange(0, i as int);
        let ghost next = version@.subrange(0, i + 1);
        assert(next.drop_last() =~= pre);
        assert(next.last() == c);
        if c == '.' {
            let v = parse_number(version, start, i);
            let ghost part = version@.subrange(start as int, i as int);
            let ghost done2 = done.push(part);
            match v {
                Some(x) => vals.push(x),
                None => {
                    vals.push(0);
                    ok = false;
                },
            }
            assert(ok == all_numbers(done2)) by {
                if ok {
                    assert forall|j: int| 0 <= j < done2.len() implies (#[trigger] number_of(
                        done2[j],
                    )).is_some() by {
                        if j < done.len() {
                            assert(done2[j] == done[j]);
                        }
                    }
                } else {
                    if v.is_none() {
                        assert(number_of(done2[done.len() as int]).is_none());
                    } else {
                        let j = choose|j: int| 0 <= j < done.len() && !(#[trigger] number_of(done[j])).is_some();
                        assert(done2[j] == done[j]);
                    }
                }
            }
            assert forall|j: int|
                0 <= j < done2.len() && (#[trigger] number_of(done2[j])).is_some() implies vals@[j]
                == number_of(done2[j]).unwrap() as usize by {
                if j < done.len() {
                    assert(done2[j] == done[j]);
                }
            }
            proof {
                done = done2;
            }
            start = i + 1;
            assert(version@.subrange(start as int, i + 1) =~= Seq::<char>::empty());
            assert(parts_of(next) =~= done.push(version@.subrange(start as int, i + 1)));
        } else {
            assert(version@.subrange(start as int, i + 1) =~= version@.subrange(
                start as int,
                i as int,
            ).push(c));
            assert(parts_of(next) =~= done.push(version@.subrange(start as int, i + 1)));
        }
        i = i + 1;
    }
    assert(version@.subrange(0, n as int) =~= version@);
    let v = parse_number(version, start, n);
    let ghost part = version@.subrange(start as int, n as int);
    let ghost all = done.push(part);
    assert(parts_of(version@) == all);
    match v {
        Some(x) => vals.push(x),
        None => {
            vals.push(0);
            ok = false;
        },
    }
    assert(ok == all_numbers(all)) by {
        if ok {
            assert forall|j: int| 0 <= j < all.len() implies (#[trigger] number_of(
                all[j],
            )).is_some() by {
                if j < done.len() {
                    assert(all[j] == done[j]);
                }
            }
        } else {
            if v.is_none() {
                assert(number_of(all[done.len() as int]).is_none());
            } else {
                let j = choose|j: int| 0 <= j < done.len() && !(#[trigger] number_of(done[j])).is_some();
                assert(all[j] == done[j]);
            }
        }
    }
    if !ok {
        return Err(Error::VersionNotANumber);
    }
    if vals.len() < 3 {
        return Err(Error::VersionMissingNumber);
    }
    assert forall|j: int| 0 <= j < all.len() implies vals@[j] == number_of(all[j]).unwrap() as usize by {
        if j < done.len() {
            assert(all[j] == done[j]);
        }
        assert(number_of(all[j]).is_some());
    }
    Ok((vals[0], vals[1], vals[2]))
}

/// Parses a base game version: `x.y.z`, or `*` for any version.
pub fn version_as_array_or_wild(version: &str) -> (r: Result<BaseGameVersion, Error>)
    ensures
        r == base_game_version_of(version@),
{
    match version_as_array(version) {
        Ok(v) => Ok(BaseGameVersion::Version(v.0, v.1, v.2)),
        Err(_) => {
            proof {
                reveal_strlit("*");
            }
            if version.unicode_len() == 1 && version.get_char(0) == '*' {
                assert(version@ =~= "*"@);
                Ok(BaseGameVersion::Wild)
            } else {
                proof {
                    if version@ == "*"@ {
                        assert(version@.len() == 1);
                        assert(version@[0] == '*');
                    }
                }
                Err(Error::InvalidBaseGameVersion)
            }
        },
    }
}

} // verus!
