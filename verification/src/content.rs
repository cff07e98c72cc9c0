//! Page content: the links that a page holds.

use vstd::prelude::*;
use crate::text::{lex_le, sort_strings, sorted, split_char, split_on, starts_with, str_starts_with, views};
use crate::urls::{join_url, opt_view, parse_url, url_join, url_parse};

verus! {

/// What the first capture group of a regular expression holds in each of
/// its matches in a text, in order, as `Regex::captures_iter` finds them;
/// `None` where `Regex::new` rejects the pattern.
pub uninterp spec fn regex_first_groups(pattern: Seq<char>, text: Seq<char>) -> Option<
    Seq<Option<Seq<char>>>,
>;

/// The views of a list of optional strings.
pub open spec fn opt_views_of(list: Seq<Option<String>>) -> Seq<Option<Seq<char>>> {
    Seq::new(list.len(), |i: int| opt_view(list[i]))
}

/// `Regex::new`, `Regex::captures_iter` and `Captures::get(1)`: the text
/// of the first group in each match.
#[verifier::external_body]
pub(crate) fn first_groups(pattern: &str, text: &str) -> (r: Option<Vec<Option<String>>>)
    ensures
        match r {
            Some(groups) => regex_first_groups(pattern@, text@) == Some(opt_views_of(groups@)),
            None => regex_first_groups(pattern@, text@) is None,
        },
{
    let re = regex::Regex::new(pattern).ok()?;
    Some(re.captures_iter(text).map(|c| c.get(1).map(|m| m.as_str().to_string())).collect())
}

/// The targets of the anchors in an HTML text: what stands in the `href`
/// attribute of each `a` element, in order.
pub open spec fn anchor_targets(html: Seq<char>) -> Seq<Option<Seq<char>>> {
    match regex_first_groups("<a[^>]+href=[\"']([^\"']+)[\"']"@, html) {
        Some(groups) => groups,
        None => match regex_first_groups("href=[\"']([^\"']+)[\"']"@, html) {
            Some(groups) => groups,
            None => Seq::empty(),
        },
    }
}

/// The absolute form of a link target on a page: joined to the page's URL,
/// cut before the first `#`, and kept only where it is an `http` or
/// `https` URL.
pub open spec fn resolved_link(base: Seq<char>, target: Seq<char>) -> Option<Seq<char>> {
    match url_join(base, target) {
        Some(absolute) => {
            let cut = split_on(absolute, '#')[0];
            if starts_with(cut, "http://"@) || starts_with(cut, "https://"@) {
                Some(cut)
            } else {
                None
            }
        },
        None => None,
    }
}

/// The links that a list of targets resolves to, in order.
pub open spec fn resolved_links(base: Seq<char>, targets: Seq<Option<Seq<char>>>) -> Seq<
    Seq<char>,
>
    decreases targets.len(),
{
    if targets.len() == 0 {
        Seq::empty()
    } else {
        let init = resolved_links(base, targets.drop_last());
        match targets.last() {
            Some(target) => match resolved_link(base, target) {
                Some(link) => init.push(link),
                None => init,
            },
            None => init,
        }
    }
}

/// A list without the repetitions that directly follow one another.
pub open spec fn deduped(list: Seq<Seq<char>>) -> Seq<Seq<char>>
    decreases list.len(),
{
    if list.len() == 0 {
        Seq::empty()
    } else {
        let init = deduped(list.drop_last());
        if init.len() > 0 && init.last() == list.last() {
            init
        } else {
            init.push(list.last())
        }
    }
}

/// Every element is before the one that follows it: the list is in order
/// and holds nothing twice.
pub open spec fn strictly_sorted(v: Seq<Seq<char>>) -> bool {
    forall|i: int, j: int|
        0 <= i < j < v.len() ==> lex_le(#[trigger] v[i], #[trigger] v[j]) && v[i] != v[j]
}

/// `links` is the sorted list, without repetitions, of the strings in
/// `found`.
pub open spec fn is_link_set(links: Seq<Seq<char>>, found: Seq<Seq<char>>) -> bool {
    &&& strictly_sorted(links)
    &&& forall|s: Seq<char>| links.contains(s) <==> found.contains(s)
}

/// There is always a first piece.
pub proof fn lemma_split_nonempty(s: Seq<char>, sep: char)
    ensures
        split_on(s, sep).len() >= 1,
    decreases s.len(),
{
    if s.len() > 0 {
        lemma_split_nonempty(s.drop_last(), sep);
    }
}

/// Two strings that are each at or before the other are the same.
pub proof fn lemma_lex_le_antisymmetric(a: Seq<char>, b: Seq<char>)
    requires
        lex_le(a, b),
        lex_le(b, a),
    ensures
        a == b,
    decreases a.len(),
{
    if a.len() == 0 {
        assert(b.len() == 0);
        assert(a =~= b);
    } else {
        assert(b.len() > 0);
        assert(a[0] == b[0]);
        lemma_lex_le_antisymmetric(a.drop_first(), b.drop_first());
        assert(a =~= seq![a[0]] + a.drop_first());
        assert(b =~= seq![b[0]] + b.drop_first());
    }
}

/// Deduplicating a sorted list leaves a strictly sorted list of the same
/// strings.
pub proof fn lemma_deduped_sorted(list: Seq<Seq<char>>)
    requires
        sorted(list),
    ensures
        is_link_set(deduped(list), list),
        list.len() > 0 ==> deduped(list).len() > 0 && deduped(list).last() == list.last(),
    decreases list.len(),
{
    if list.len() > 0 {
        let init_list = list.drop_last();
        let x = list.last();
        assert forall|i: int, j: int| 0 <= i <= j < init_list.len() implies lex_le(
            #[trigger] init_list[i],
            #[trigger] init_list[j],
        ) by {
            assert(init_list[i] == list[i]);
            assert(init_list[j] == list[j]);
        }
        lemma_deduped_sorted(init_list);
        let init = deduped(init_list);
        let d = deduped(list);
        assert forall|s: Seq<char>| list.contains(s) <==> (init_list.contains(s) || s == x) by {
            if list.contains(s) {
                let k = choose|k: int| 0 <= k < list.len() && list[k] == s;
                if k < init_list.len() {
                    assert(init_list[k] == s);
                }
            }
            if init_list.contains(s) {
                let k = choose|k: int| 0 <= k < init_list.len() && init_list[k] == s;
                assert(list[k] == s);
            }
            if s == x {
                assert(list[list.len() - 1] == s);
            }
        }
        if init.len() > 0 && init.last() == x {
            assert(init.contains(x)) by {
                assert(init[init.len() - 1] == x);
            }
        } else {
            assert(d == init.push(x));
            assert forall|s: Seq<char>| d.contains(s) <==> (init.contains(s) || s == x) by {
                if d.contains(s) {
                    let k = choose|k: int| 0 <= k < d.len() && d[k] == s;
                    if k < init.len() {
                        assert(init[k] == s);
                    }
                }
                if init.contains(s) {
                    let k = choose|k: int| 0 <= k < init.len() && init[k] == s;
                    assert(d[k] == s);
                }
                if s == x {
                    assert(d[d.len() - 1] == s);
                }
            }
            assert forall|i: int, j: int| 0 <= i < j < d.len() implies lex_le(
                #[trigger] d[i],
                #[trigger] d[j],
            ) && d[i] != d[j] by {
                if j < init.len() {
                    assert(d[i] == init[i] && d[j] == init[j]);
                } else {
                    assert(d[i] == init[i]);
                    assert(init.contains(init[i]));
                    assert(init_list.contains(init[i]));
                    let k = choose|k: int| 0 <= k < init_list.len() && init_list[k] == init[i];
                    assert(list[k] == init[i]);
                    assert(lex_le(list[k], list[list.len() - 1]));
                    if init[i] == x {
                        let m = init.len() - 1;
                        assert(init[m] == init_list.last());
                        assert(init_list.last() == list[init_list.len() - 1]);
                        assert(lex_le(list[init_list.len() - 1], list[list.len() - 1]));
                        if i < m {
                            assert(lex_le(init[i], init[m]) && init[i] != init[m]);
                            lemma_lex_le_antisymmetric(init[m], x);
                        }
                    }
                }
            }
        }
    }
}

/// Removes from a list the repetitions that directly follow one another.
pub fn dedup_strings(list: Vec<String>) -> (r: Vec<String>)
    ensures
        views(r@) == deduped(views(list@)),
{
    let mut out: Vec<String> = Vec::new();
    let mut i: usize = 0;
    let ghost all = views(list@);
    assert(all.take(0) =~= Seq::<Seq<char>>::empty());
    assert(views(out@) =~= Seq::<Seq<char>>::empty());
    while i < list.len()
        invariant
            i <= list@.len(),
            all == views(list@),
            views(out@) == deduped(all.take(i as int)),
        decreases list@.len() - i,
    {
        proof {
            let next = all.take(i as int + 1);
            assert(next.drop_last() =~= all.take(i as int));
            assert(next.last() == list@[i as int]@);
        }
        let ghost before = views(out@);
        let repeated = out.len() > 0 && crate::text::str_eq(
            out[out.len() - 1].as_str(),
            list[i].as_str(),
        );
        proof {
            if out@.len() > 0 {
                assert(before.last() == out@[out@.len() - 1]@);
            }
        }
        if !repeated {
            out.push(list[i].clone());
            assert(views(out@) =~= before.push(list@[i as int]@));
        }
        i += 1;
    }
    assert(all.take(list@.len() as int) =~= all);
    out
}

/// Sorts a list of strings and removes what occurs more than once.
pub fn sort_and_dedup(list: Vec<String>) -> (r: Vec<String>)
    ensures
        is_link_set(views(r@), views(list@)),
{
    let mut sorted_list = list;
    sort_strings(&mut sorted_list);
    let ghost s = views(sorted_list@);
    let out = dedup_strings(sorted_list);
    proof {
        lemma_deduped_sorted(s);
        let before = views(list@);
        assert forall|x: Seq<char>| s.contains(x) <==> before.contains(x) by {
            broadcast use vstd::seq_lib::to_multiset_contains;
            assert(s.to_multiset().count(x) == before.to_multiset().count(x));
        }
    }
    out
}

/// Extracts the links of a page: the targets of its anchors, made absolute
/// against the page's URL, without fragments, `http` and `https` only;
/// sorted, each once. A page whose own URL does not parse has no links.
pub fn extract_links_from_html(html: &str, base_url: &str) -> (r: Vec<String>)
    ensures
        is_link_set(
            views(r@),
            if url_parse(base_url@) is Some {
                resolved_links(base_url@, anchor_targets(html@))
            } else {
                Seq::empty()
            },
        ),
{
    let mut links: Vec<String> = Vec::new();
    assert(views(links@) =~= Seq::<Seq<char>>::empty());
    if parse_url(base_url).is_none() {
        return links;
    }
    let targets: Vec<Option<String>> = match first_groups(
        "<a[^>]+href=[\"']([^\"']+)[\"']",
        html,
    ) {
        Some(groups) => groups,
        None => match first_groups("href=[\"']([^\"']+)[\"']", html) {
            Some(groups) => groups,
            None => {
                let none: Vec<Option<String>> = Vec::new();
                assert(opt_views_of(none@) =~= Seq::empty());
                none
            },
        },
    };
    let ghost all = opt_views_of(targets@);
    assert(all == anchor_targets(html@));
    assert(all.take(0) =~= Seq::empty());
    let mut i: usize = 0;
    while i < targets.len()
        invariant
            i <= targets@.len(),
            all == opt_views_of(targets@),
            views(links@) == resolved_links(base_url@, all.take(i as int)),
        decreases targets@.len() - i,
    {
        proof {
            let next = all.take(i as int + 1);
            assert(next.drop_last() =~= all.take(i as int));
            assert(next.last() == opt_view(targets@[i as int]));
        }
        let ghost before = views(links@);
        match &targets[i] {
            Some(target) => {
                match join_url(base_url, target.as_str()) {
                    Some(absolute) => {
                        let pieces = split_char(absolute.as_str(), '#');
                        proof {
                            lemma_split_nonempty(absolute@, '#');
                            assert(views(pieces@)[0] == pieces@[0]@);
                        }
                        let cut = pieces[0].clone();
                        if str_starts_with(cut.as_str(), "http://") || str_starts_with(
                            cut.as_str(),
                            "https://",
                        ) {
                            links.push(cut);
                            assert(views(links@) =~= before.push(cut@));
                        }
                    },
                    None => {},
                }
            },
            None => {},
        }
        i += 1;
    }
    assert(all.take(targets@.len() as int) =~= all);
    sort_and_dedup(links)
}

} // verus!
