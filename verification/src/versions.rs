//! Version strings: their order, and the choice of the stored version
//! that is closest to a wanted one.
//!
//! A version is read as a list of numbers between dots. A part that is no
//! number counts as 0, as does a part that is missing.

use vstd::prelude::*;
use crate::models::TechnologyVersion;
use crate::text::{split_char, split_on, views};

verus! {

/// The value of a decimal digit; `None` for any other character.
pub open spec fn digit_value(c: char) -> Option<nat> {
    if '0' <= c && c <= '9' {
        Some((c as u32 - '0' as u32) as nat)
    } else {
        None
    }
}

/// The number that a text of decimal digits writes; `None` where the
/// text is empty or holds anything but digits.
pub open spec fn digits_value(text: Seq<char>) -> Option<nat>
    decreases text.len(),
{
    if text.len() == 0 {
        None
    } else {
        match digit_value(text.last()) {
            None => None,
            Some(d) => if text.len() == 1 {
                Some(d)
            } else {
                match digits_value(text.drop_last()) {
                    Some(n) => Some(n * 10 + d),
                    None => None,
                }
            },
        }
    }
}

/// The number that a text writes: decimal digits, with at most a `+`
/// before them. `None` where the text is anything else, or the number
/// does not fit in 32 bits.
pub open spec fn parsed_u32(text: Seq<char>) -> Option<u32> {
    let digits = if text.len() > 0 && text[0] == '+' {
        text.drop_first()
    } else {
        text
    };
    match digits_value(digits) {
        Some(n) => if n <= u32::MAX {
            Some(n as u32)
        } else {
            None
        },
        None => None,
    }
}

/// `str::parse::<u32>`: the number that a text writes, where the text is
/// an optional `+` and then decimal digits only, and the number fits.
#[verifier::external_body]
fn parse_u32(text: &str) -> (r: Option<u32>)
    ensures
        r == parsed_u32(text@),
{
    text.parse::<u32>().ok()
}

/// The number that a part of a version stands for.
pub open spec fn part_value(part: Seq<char>) -> u32 {
    match parsed_u32(part) {
        Some(n) => n,
        None => 0,
    }
}

/// The numbers of a version.
pub open spec fn version_numbers(version: Seq<char>) -> Seq<u32> {
    split_on(version, '.').map_values(|part: Seq<char>| part_value(part))
}

/// The `i`-th number of a version; 0 where the version has fewer parts.
pub open spec fn number_at(numbers: Seq<u32>, i: int) -> u32 {
    if 0 <= i < numbers.len() {
        numbers[i]
    } else {
        0
    }
}

/// How one version stands to another.
#[derive(Debug, Clone, Copy, PartialEq, Eq, Structural)]
pub enum VersionOrder {
    Older,
    Same,
    Newer,
}

/// How `a` stands to `b`, going by the numbers from place `i` on: the
/// first place at which they differ decides.
pub open spec fn order_from(a: Seq<u32>, b: Seq<u32>, i: int) -> VersionOrder
    decreases
        (if a.len() > b.len() {
            a.len()
        } else {
            b.len()
        }) - i,
{
    if i < 0 || (i >= a.len() && i >= b.len()) {
        VersionOrder::Same
    } else if number_at(a, i) < number_at(b, i) {
        VersionOrder::Older
    } else if number_at(a, i) > number_at(b, i) {
        VersionOrder::Newer
    } else {
        order_from(a, b, i + 1)
    }
}

/// How version `a` stands to version `b`.
pub open spec fn version_order(a: Seq<char>, b: Seq<char>) -> VersionOrder {
    order_from(version_numbers(a), version_numbers(b), 0)
}

/// The largest distance that is told apart.
pub open spec fn far() -> int {
    0xFFFF_FFFF
}

/// A distance, counted no further than `far()`.
pub open spec fn capped(d: int) -> int {
    if d > far() {
        far()
    } else {
        d
    }
}

/// The weight of a place that has `k` places after it: ten to the `k`,
/// counted no further than `far()`.
pub open spec fn weight(k: nat) -> int
    decreases k,
{
    if k == 0 {
        1
    } else {
        capped(10 * weight((k - 1) as nat))
    }
}

/// The difference of two numbers.
pub open spec fn gap(a: u32, b: u32) -> int {
    if a > b {
        a - b
    } else {
        b - a
    }
}

/// The distance of two versions over their first `n` places, where
/// `places` is the number of places of the longer one: each place counts
/// ten times the next.
pub open spec fn distance_upto(a: Seq<u32>, b: Seq<u32>, places: nat, n: nat) -> int
    decreases n,
{
    if n == 0 || n > places {
        0
    } else {
        capped(
            distance_upto(a, b, places, (n - 1) as nat) + capped(
                weight((places - n) as nat) * gap(number_at(a, n - 1), number_at(b, n - 1)),
            ),
        )
    }
}

/// The number of places of the longer of two versions.
pub open spec fn places_of(a: Seq<u32>, b: Seq<u32>) -> nat {
    if a.len() > b.len() {
        a.len()
    } else {
        b.len()
    }
}

/// The distance of two versions.
pub open spec fn distance(a: Seq<u32>, b: Seq<u32>) -> int {
    distance_upto(a, b, places_of(a, b), places_of(a, b))
}

/// The index of the version that is closest to the target among the first
/// `n`, if any is closer than `far()`. Of two that are equally close, the
/// later in the list is taken where it is newer and newer ones are
/// wanted, or where it is not newer and older ones are wanted.
pub open spec fn closest_upto(
    versions: Seq<Seq<char>>,
    target: Seq<char>,
    resolve_upwards: bool,
    n: nat,
) -> Option<int>
    decreases n,
{
    if n == 0 || n > versions.len() {
        None
    } else {
        let before = closest_upto(versions, target, resolve_upwards, (n - 1) as nat);
        let d = distance(version_numbers(target), version_numbers(versions[n - 1]));
        match before {
            None => if d < far() {
                Some(n - 1)
            } else {
                None
            },
            Some(best) => {
                let best_d = distance(version_numbers(target), version_numbers(versions[best]));
                if d < best_d {
                    Some(n - 1)
                } else if d == best_d {
                    let newer = version_order(versions[n - 1], versions[best])
                        == VersionOrder::Newer;
                    if resolve_upwards == newer {
                        Some(n - 1)
                    } else {
                        Some(best)
                    }
                } else {
                    Some(best)
                }
            },
        }
    }
}

/// The names of a list of versions.
pub open spec fn version_names(versions: Seq<TechnologyVersion>) -> Seq<Seq<char>> {
    Seq::new(versions.len(), |i: int| versions[i].version@)
}

/// Reads the numbers of a version.
pub fn parse_version(version: &str) -> (r: Vec<u32>)
    ensures
        r@ == version_numbers(version@),
{
    let parts = split_char(version, '.');
    let mut out: Vec<u32> = Vec::new();
    let mut i: usize = 0;
    while i < parts.len()
        invariant
            i <= parts@.len(),
            views(parts@) == split_on(version@, '.'),
            out@.len() == i,
            forall|j: int| 0 <= j < i ==> out@[j] == part_value(#[trigger] views(parts@)[j]),
        decreases parts@.len() - i,
    {
        let n = match parse_u32(parts[i].as_str()) {
            Some(n) => n,
            None => 0,
        };
        assert(views(parts@)[i as int] == parts@[i as int]@);
        out.push(n);
        i += 1;
    }
    assert(out@ =~= version_numbers(version@));
    out
}

fn number_of(numbers: &Vec<u32>, i: usize) -> (r: u32)
    ensures
        r == number_at(numbers@, i as int),
{
    if i < numbers.len() {
        numbers[i]
    } else {
        0
    }
}

/// Compares two lists of version numbers.
pub fn compare_numbers(a: &Vec<u32>, b: &Vec<u32>) -> (r: VersionOrder)
    ensures
        r == order_from(a@, b@, 0),
{
    let places = if a.len() > b.len() {
        a.len()
    } else {
        b.len()
    };
    let mut i: usize = 0;
    while i < places
        invariant
            i <= places,
            places == places_of(a@, b@),
            order_from(a@, b@, 0) == order_from(a@, b@, i as int),
        decreases places - i,
    {
        let x = number_of(a, i);
        let y = number_of(b, i);
        if x < y {
            return VersionOrder::Older;
        }
        if x > y {
            return VersionOrder::Newer;
        }
        i += 1;
    }
    VersionOrder::Same
}

/// How version `a` stands to version `b`.
pub fn compare_versions(a: &str, b: &str) -> (r: VersionOrder)
    ensures
        r == version_order(a@, b@),
{
    let x = parse_version(a);
    let y = parse_version(b);
    compare_numbers(&x, &y)
}

fn cap(d: u64) -> (r: u64)
    ensures
        r == capped(d as int),
{
    if d > 0xFFFF_FFFF {
        0xFFFF_FFFF
    } else {
        d
    }
}

proof fn lemma_weight_bound(k: nat)
    ensures
        1 <= weight(k) <= far(),
    decreases k,
{
    if k > 0 {
        lemma_weight_bound((k - 1) as nat);
    }
}

proof fn lemma_distance_bound(a: Seq<u32>, b: Seq<u32>, places: nat, n: nat)
    ensures
        0 <= distance_upto(a, b, places, n) <= far(),
    decreases n,
{
    if !(n == 0 || n > places) {
        lemma_distance_bound(a, b, places, (n - 1) as nat);
        lemma_weight_bound((places - n) as nat);
        assert(weight((places - n) as nat) * gap(number_at(a, n - 1), number_at(b, n - 1)) >= 0)
            by (nonlinear_arith)
            requires
                weight((places - n) as nat) >= 1,
                gap(number_at(a, n - 1), number_at(b, n - 1)) >= 0,
        ;
    }
}

/// The distance of two lists of version numbers.
pub fn version_distance(a: &Vec<u32>, b: &Vec<u32>) -> (r: u64)
    ensures
        r == distance(a@, b@),
        r <= 0xFFFF_FFFF,
{
    let places = if a.len() > b.len() {
        a.len()
    } else {
        b.len()
    };
    // The weights of the places, the last place first.
    let mut weights: Vec<u64> = Vec::new();
    let mut w: u64 = 1;
    let mut k: usize = 0;
    while k < places
        invariant
            k <= places,
            weights@.len() == k,
            w == weight(k as nat),
            1 <= w <= 0xFFFF_FFFF,
            forall|j: int| 0 <= j < k ==> weights@[j] == weight(j as nat),
        decreases places - k,
    {
        weights.push(w);
        w = cap(10 * w);
        k += 1;
        proof {
            lemma_weight_bound(k as nat);
        }
    }
    let mut total: u64 = 0;
    let mut n: usize = 0;
    while n < places
        invariant
            n <= places,
            places == places_of(a@, b@),
            weights@.len() == places,
            forall|j: int| 0 <= j < places ==> weights@[j] == weight(j as nat),
            total == distance_upto(a@, b@, places as nat, n as nat),
            total <= 0xFFFF_FFFF,
        decreases places - n,
    {
        let x = number_of(a, n);
        let y = number_of(b, n);
        let g: u64 = if x > y {
            (x - y) as u64
        } else {
            (y - x) as u64
        };
        let place_weight = weights[places - n - 1];
        proof {
            lemma_weight_bound((places - n - 1) as nat);
            assert(place_weight * g <= 0xFFFF_FFFF * 0xFFFF_FFFF) by (nonlinear_arith)
                requires
                    0 <= place_weight <= 0xFFFF_FFFF,
                    0 <= g <= 0xFFFF_FFFF,
            ;
        }
        let term = cap(place_weight * g);
        total = cap(total + term);
        n += 1;
        proof {
            lemma_distance_bound(a@, b@, places as nat, n as nat);
        }
    }
    total
}

/// Finds among stored versions the one that is closest to the target.
/// Returns its index; none where there is no version, or none within
/// telling distance.
pub fn find_closest_index(versions: &[TechnologyVersion], target: &str, resolve_upwards: bool)
    -> (r: Option<usize>)
    ensures
        match r {
            Some(i) => i < versions@.len() && closest_upto(
                version_names(versions@),
                target@,
                resolve_upwards,
                versions@.len(),
            ) == Some(i as int),
            None => closest_upto(
                version_names(versions@),
                target@,
                resolve_upwards,
                versions@.len(),
            ) is None,
        },
{
    let wanted = parse_version(target);
    let mut best: Option<usize> = None;
    let mut best_distance: u64 = 0xFFFF_FFFF;
    let ghost names = version_names(versions@);
    let mut i: usize = 0;
    while i < versions.len()
        invariant
            i <= versions@.len(),
            names == version_names(versions@),
            wanted@ == version_numbers(target@),
            match best {
                Some(b) => b < i && closest_upto(names, target@, resolve_upwards, i as nat) == Some(
                    b as int,
                ) && best_distance == distance(wanted@, version_numbers(names[b as int])),
                None => closest_upto(names, target@, resolve_upwards, i as nat) is None
                    && best_distance == 0xFFFF_FFFF,
            },
        decreases versions@.len() - i,
    {
        let numbers = parse_version(versions[i].version.as_str());
        assert(names[i as int] == versions@[i as int].version@);
        let d = version_distance(&wanted, &numbers);
        if d < best_distance {
            best = Some(i);
            best_distance = d;
        } else if d == best_distance {
            match best {
                Some(b) => {
                    let held = parse_version(versions[b].version.as_str());
                    assert(names[b as int] == versions@[b as int].version@);
                    let newer = compare_numbers(&numbers, &held) == VersionOrder::Newer;
                    if resolve_upwards == newer {
                        best = Some(i);
                    }
                },
                None => {},
            }
        }
        i += 1;
    }
    best
}

/// Finds among stored versions the one that is closest to the target.
pub fn find_closest_version(versions: &[TechnologyVersion], target: &str, resolve_upwards: bool)
    -> (r: Option<TechnologyVersion>)
    ensures
        match r {
            Some(v) => closest_upto(
                version_names(versions@),
                target@,
                resolve_upwards,
                versions@.len(),
            ) matches Some(i) && 0 <= i < versions@.len() && v == versions@[i],
            None => closest_upto(
                version_names(versions@),
                target@,
                resolve_upwards,
                versions@.len(),
            ) is None,
        },
{
    match find_closest_index(versions, target, resolve_upwards) {
        Some(i) => Some(
            TechnologyVersion {
                id: versions[i].id,
                technology_id: versions[i].technology_id,
                version: versions[i].version.clone(),
                created_at: versions[i].created_at,
                updated_at: versions[i].updated_at,
            },
        ),
        None => None,
    }
}

/// The index of the newest of the first `n` versions; of several that are
/// equally new, the last.
pub open spec fn newest_upto(versions: Seq<Seq<char>>, n: nat) -> Option<int>
    decreases n,
{
    if n == 0 || n > versions.len() {
        None
    } else {
        match newest_upto(versions, (n - 1) as nat) {
            None => Some(n - 1),
            Some(best) => if version_order(versions[n - 1], versions[best])
                == VersionOrder::Older {
                Some(best)
            } else {
                Some(n - 1)
            },
        }
    }
}

/// Finds the newest of the stored versions.
pub fn find_latest_index(versions: &[TechnologyVersion]) -> (r: Option<usize>)
    ensures
        match r {
            Some(i) => i < versions@.len() && newest_upto(
                version_names(versions@),
                versions@.len(),
            ) == Some(i as int),
            None => versions@.len() == 0,
        },
{
    let ghost names = version_names(versions@);
    let mut best: Option<usize> = None;
    let mut i: usize = 0;
    while i < versions.len()
        invariant
            i <= versions@.len(),
            names == version_names(versions@),
            match best {
                Some(b) => b < i && newest_upto(names, i as nat) == Some(b as int),
                None => i == 0,
            },
        decreases versions@.len() - i,
    {
        assert(names[i as int] == versions@[i as int].version@);
        match best {
            None => {
                best = Some(i);
            },
            Some(b) => {
                assert(names[b as int] == versions@[b as int].version@);
                if compare_versions(versions[i].version.as_str(), versions[b].version.as_str())
                    != VersionOrder::Older {
                    best = Some(i);
                }
            },
        }
        i += 1;
    }
    best
}

/// A version stands to itself as `Same`.
pub proof fn lemma_order_reflexive(a: Seq<u32>, i: int)
    ensures
        order_from(a, a, i) == VersionOrder::Same,
    decreases a.len() - i,
{
    if !(i < 0 || i >= a.len()) {
        lemma_order_reflexive(a, i + 1);
    }
}

/// If `a` is older than `b`, then `b` is newer than `a`, and the other
/// way round.
pub proof fn lemma_order_antisymmetric(a: Seq<u32>, b: Seq<u32>, i: int)
    ensures
        order_from(a, b, i) == VersionOrder::Older <==> order_from(b, a, i) == VersionOrder::Newer,
        order_from(a, b, i) == VersionOrder::Same <==> order_from(b, a, i) == VersionOrder::Same,
    decreases places_of(a, b) - i,
{
    if !(i < 0 || (i >= a.len() && i >= b.len())) {
        if number_at(a, i) == number_at(b, i) {
            lemma_order_antisymmetric(a, b, i + 1);
        }
    }
}

/// A version is at distance 0 from itself.
pub proof fn lemma_distance_to_self(a: Seq<u32>, n: nat)
    ensures
        distance_upto(a, a, a.len(), n) == 0,
    decreases n,
{
    if !(n == 0 || n > a.len()) {
        lemma_distance_to_self(a, (n - 1) as nat);
        assert(weight((a.len() - n) as nat) * 0 == 0);
    }
}

} // verus!
