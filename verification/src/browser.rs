//! Finding the browser that renders pages. Looking at the disk and asking
//! the shell is left to whoever runs the engine; what is looked for, and
//! what is made of the answers, is decided here.

use vstd::prelude::*;
use crate::text::{trim, trimmed};

verus! {

/// The operating systems that the browser is looked for on.
#[derive(Debug, Clone, Copy, PartialEq, Eq, Structural)]
pub enum Platform {
    Windows,
    MacOs,
    Unix,
}

/// The browser service.
#[derive(Debug, Clone, Copy, PartialEq, Eq, Structural)]
pub struct BrowserService {}

/// The places where a browser is usually installed, in the order of
/// preference.
pub open spec fn usual_places(platform: Platform) -> Seq<Seq<char>> {
    match platform {
        Platform::Windows => seq![
            "C:\\Program Files\\Google\\Chrome\\Application\\chrome.exe"@,
            "C:\\Program Files (x86)\\Google\\Chrome\\Application\\chrome.exe"@,
            "C:\\Program Files\\Microsoft\\Edge\\Application\\msedge.exe"@,
            "C:\\Program Files (x86)\\Microsoft\\Edge\\Application\\msedge.exe"@,
        ],
        Platform::MacOs => seq![
            "/Applications/Google Chrome.app/Contents/MacOS/Google Chrome"@,
            "/Applications/Microsoft Edge.app/Contents/MacOS/Microsoft Edge"@,
            "/Applications/Brave Browser.app/Contents/MacOS/Brave Browser"@,
            "/Applications/Chromium.app/Contents/MacOS/Chromium"@,
        ],
        Platform::Unix => seq![
            "/usr/bin/google-chrome"@,
            "/usr/bin/chromium"@,
            "/usr/bin/chromium-browser"@,
            "/snap/bin/chromium"@,
        ],
    }
}

/// The first place at which a browser was found, if any: `present[i]`
/// says whether there is one at `places[i]`.
pub open spec fn first_present(places: Seq<Seq<char>>, present: Seq<bool>) -> Option<Seq<char>>
    decreases places.len(),
{
    if places.len() == 0 || present.len() == 0 {
        None
    } else if present[0] {
        Some(places[0])
    } else {
        first_present(places.drop_first(), present.drop_first())
    }
}

/// The first answer of the shell that names a path, without surrounding
/// whitespace.
pub open spec fn first_answer(answers: Seq<Option<Seq<char>>>) -> Option<Seq<char>>
    decreases answers.len(),
{
    if answers.len() == 0 {
        None
    } else {
        match answers[0] {
            Some(a) => if trimmed(a).len() > 0 {
                Some(trimmed(a))
            } else {
                first_answer(answers.drop_first())
            },
            None => first_answer(answers.drop_first()),
        }
    }
}

/// Where the browser is: at the first usual place that has one, else,
/// except on Windows, where the shell says.
pub open spec fn chrome_place(
    platform: Platform,
    present: Seq<bool>,
    answers: Seq<Option<Seq<char>>>,
) -> Option<Seq<char>> {
    match first_present(usual_places(platform), present) {
        Some(p) => Some(p),
        None => if platform == Platform::Windows {
            None
        } else {
            first_answer(answers)
        },
    }
}

impl Default for BrowserService {
    /// The browser service that [`BrowserService::new`] gives.
    fn default() -> (r: BrowserService)
        ensures
            r == (BrowserService {  }),
    {
        BrowserService::new()
    }
}

impl BrowserService {
    /// A browser service. Nothing is looked for or started yet, and any
    /// two such services are equal.
    pub fn new() -> (r: BrowserService)
        ensures
            r == (BrowserService {  }),
    {
        BrowserService {  }
    }

    /// The places where a browser is usually installed on a platform, in
    /// the order of preference.
    pub fn candidate_paths(&self, platform: Platform) -> (r: Vec<&'static str>)
        ensures
            r@.len() == 4,
            forall|i: int| 0 <= i < 4 ==> (#[trigger] r@[i])@ == usual_places(platform)[i],
    {
        match platform {
            Platform::Windows => vec![
                "C:\\Program Files\\Google\\Chrome\\Application\\chrome.exe",
                "C:\\Program Files (x86)\\Google\\Chrome\\Application\\chrome.exe",
                "C:\\Program Files\\Microsoft\\Edge\\Application\\msedge.exe",
                "C:\\Program Files (x86)\\Microsoft\\Edge\\Application\\msedge.exe",
            ],
            Platform::MacOs => vec![
                "/Applications/Google Chrome.app/Contents/MacOS/Google Chrome",
                "/Applications/Microsoft Edge.app/Contents/MacOS/Microsoft Edge",
                "/Applications/Brave Browser.app/Contents/MacOS/Brave Browser",
                "/Applications/Chromium.app/Contents/MacOS/Chromium",
            ],
            Platform::Unix => vec![
                "/usr/bin/google-chrome",
                "/usr/bin/chromium",
                "/usr/bin/chromium-browser",
                "/snap/bin/chromium",
            ],
        }
    }

    /// Picks the browser: `present[i]` says whether there is one at the
    /// `i`-th usual place of the platform, and `answers` holds what the
    /// shell printed when asked for `google-chrome` and for `chromium`,
    /// where it found them.
    pub fn find_chrome_path(
        &self,
        platform: Platform,
        present: &[bool],
        answers: &[Option<String>],
    ) -> (r: Option<String>)
        ensures
            match r {
                Some(p) => chrome_place(
                    platform,
                    present@,
                    crate::content::opt_views_of(answers@),
                ) == Some(p@),
                None => chrome_place(platform, present@, crate::content::opt_views_of(answers@))
                    is None,
            },
    {
        let places = self.candidate_paths(platform);
        let ghost all = usual_places(platform);
        let mut i: usize = 0;
        assert(all.skip(0) =~= all);
        assert(present@.skip(0) =~= present@);
        while i < places.len() && i < present.len()
            invariant
                i <= places@.len(),
                i <= present@.len(),
                places@.len() == 4,
                all == usual_places(platform),
                all.len() == 4,
                forall|j: int| 0 <= j < 4 ==> (#[trigger] places@[j])@ == all[j],
                first_present(all, present@) == first_present(
                    all.skip(i as int),
                    present@.skip(i as int),
                ),
            decreases places@.len() - i,
        {
            proof {
                assert(all.skip(i as int).drop_first() =~= all.skip(i as int + 1));
                assert(present@.skip(i as int).drop_first() =~= present@.skip(i as int + 1));
            }
            if present[i] {
                return Some(places[i].to_owned());
            }
            i += 1;
        }
        if platform == Platform::Windows {
            return None;
        }
        let ghost said = crate::content::opt_views_of(answers@);
        let mut k: usize = 0;
        assert(said.skip(0) =~= said);
        while k < answers.len()
            invariant
                k <= answers@.len(),
                said == crate::content::opt_views_of(answers@),
                platform != Platform::Windows,
                first_present(usual_places(platform), present@) is None,
                first_answer(said) == first_answer(said.skip(k as int)),
            decreases answers@.len() - k,
        {
            proof {
                assert(said.skip(k as int).drop_first() =~= said.skip(k as int + 1));
                assert(said.skip(k as int)[0] == crate::urls::opt_view(answers@[k as int]));
            }
            match &answers[k] {
                Some(a) => {
                    let t = trim(a.as_str());
                    if !t.is_empty() {
                        return Some(t.to_owned());
                    }
                },
                None => {},
            }
            k += 1;
        }
        None
    }

    /// The path of the browser, given what the search found.
    pub fn get_chrome_path(&self, found: Option<String>) -> (r: Result<String, String>)
        ensures
            match found {
                Some(p) => r == Ok::<String, String>(p),
                None => r matches Err(e) && e@ == "Chrome or Chromium is not installed."@,
            },
    {
        match found {
            Some(path) => Ok(path),
            None => Err("Chrome or Chromium is not installed.".to_owned()),
        }
    }
}


/// What is put around the content of shadow roots when it is added to a
/// page.
pub open spec fn shadow_block(shadow: Seq<char>) -> Seq<char> {
    "\n<!-- Shadow DOM Content -->\n<div id=\"shadow-dom-extracted-content\">"@ + shadow
        + "</div>"@
}

/// `merged` is the page `html` with the content of its shadow roots:
/// unchanged where there is none, else with the content, in a block of its
/// own, before the last `</body>`, or at the end where the page has no
/// `</body>`.
pub open spec fn is_merged(html: Seq<char>, shadow: Seq<char>, merged: Seq<char>) -> bool {
    if shadow.len() == 0 {
        merged == html
    } else if crate::text::contains(html, "</body>"@) {
        exists|before: Seq<char>, after: Seq<char>|
            crate::text::splits_at_last(html, "</body>"@, before, after) && merged == before
                + shadow_block(shadow) + "\n"@ + "</body>"@ + after
    } else {
        merged == html + shadow_block(shadow)
    }
}

/// Adds the content of a page's shadow roots to the page.
pub fn merge_shadow_dom(html: String, shadow: &str) -> (r: String)
    ensures
        is_merged(html@, shadow@, r@),
{
    if shadow.is_empty() {
        return html;
    }
    match crate::text::rsplit_once(html.as_str(), "</body>") {
        Some((before, after)) => {
            let mut out = before;
            out.append("\n<!-- Shadow DOM Content -->\n<div id=\"shadow-dom-extracted-content\">");
            out.append(shadow);
            out.append("</div>");
            out.append("\n");
            out.append("</body>");
            out.append(after.as_str());
            proof {
                assert(crate::text::contains(html@, "</body>"@)) by {
                    let p = "</body>"@;
                    assert(html@.subrange(before@.len() as int, (before@.len() + p.len()) as int) =~= p);
                    assert(crate::text::occurs_at(html@, p, before@.len() as int));
                }
                assert(out@ =~= before@ + shadow_block(shadow@) + "\n"@ + "</body>"@ + after@);
            }
            out
        },
        None => {
            let mut out = html;
            out.append("\n<!-- Shadow DOM Content -->\n<div id=\"shadow-dom-extracted-content\">");
            out.append(shadow);
            out.append("</div>");
            assert(out@ =~= html@ + shadow_block(shadow@));
            out
        },
    }
}

} // verus!
