//! Proxies: reading the list that a proxy source sends.

use vstd::prelude::*;
use crate::filter::non_blank;
use crate::text::{lines, text_lines, trim, views};

verus! {

/// A proxy.
#[derive(Debug, Clone)]
pub struct Proxy {
    pub id: u128,
    pub url: String,
    pub last_used: Option<i64>,
}

/// Reads the proxies of a list that names one on each line: each line
/// without surrounding whitespace, blank lines left out.
pub fn parse_proxy_list(body: &str) -> (r: Vec<String>)
    ensures
        views(r@) == non_blank(text_lines(body@)),
{
    let all = lines(body);
    let mut out: Vec<String> = Vec::new();
    let mut i: usize = 0;
    assert(views(all@).take(0) =~= Seq::<Seq<char>>::empty());
    assert(views(out@) =~= Seq::<Seq<char>>::empty());
    while i < all.len()
        invariant
            i <= all@.len(),
            views(out@) == non_blank(views(all@).take(i as int)),
        decreases all@.len() - i,
    {
        let line = trim(all[i].as_str());
        let ghost before = views(out@);
        if !line.is_empty() {
            out.push(line.to_owned());
            assert(views(out@) =~= before.push(line@));
        }
        proof {
            let next = views(all@).take(i as int + 1);
            assert(next.drop_last() =~= views(all@).take(i as int));
            assert(next.last() == all@[i as int]@);
        }
        i += 1;
    }
    assert(views(all@).take(all@.len() as int) =~= views(all@));
    out
}

} // verus!
