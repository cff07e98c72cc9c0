//! Snippets of documentation: what a page's text is cut into, and the
//! requests by which a language model is asked to refine a text and to
//! make snippets of it.

use vstd::prelude::*;
use crate::content::opt_views_of;
use crate::text::{concat3, decimal, number_text};
use crate::urls::opt_view;

verus! {

/// A snippet as the language model hands it in: each part is there or
/// not.
#[derive(Debug, Clone)]
pub struct SnippetDraft {
    pub title: Option<String>,
    pub description: Option<String>,
    pub content: Option<String>,
    pub concepts: Option<Vec<Option<String>>>,
}

/// A stored snippet.
#[derive(Debug, Clone)]
pub struct DocumentationSnippet {
    pub id: u128,
    pub title: String,
    pub description: String,
    pub content: String,
    pub source_url: String,
    pub technology_id: u128,
    pub version_id: u128,
    pub concepts: Option<Vec<Option<String>>>,
    pub created_at: i64,
    pub updated_at: i64,
}

/// A text that may be missing: empty then.
pub open spec fn text_or_empty(t: Option<Seq<char>>) -> Seq<char> {
    match t {
        Some(s) => s,
        None => Seq::empty(),
    }
}

/// Those entries of a list that are there, in order.
pub open spec fn present(entries: Seq<Option<Seq<char>>>) -> Seq<Seq<char>>
    decreases entries.len(),
{
    if entries.len() == 0 {
        Seq::empty()
    } else {
        match entries.last() {
            Some(e) => present(entries.drop_last()).push(e),
            None => present(entries.drop_last()),
        }
    }
}

/// The concepts of a stored snippet, as texts.
pub open spec fn concept_texts(concepts: Option<Vec<Option<String>>>) -> Option<Seq<Seq<char>>> {
    match concepts {
        Some(list) => Some(present(opt_views_of(list@))),
        None => None,
    }
}

fn copy_or_empty(t: &Option<String>) -> (r: String)
    ensures
        r@ == text_or_empty(opt_view(*t)),
{
    match t {
        Some(s) => s.clone(),
        None => String::new(),
    }
}

fn present_concepts(entries: &Vec<Option<String>>) -> (r: Vec<Option<String>>)
    ensures
        present(opt_views_of(r@)) == present(opt_views_of(entries@)),
        forall|i: int| 0 <= i < r@.len() ==> (#[trigger] r@[i]) is Some,
        r@.len() == present(opt_views_of(entries@)).len(),
{
    let mut out: Vec<Option<String>> = Vec::new();
    let ghost all = opt_views_of(entries@);
    let mut i: usize = 0;
    assert(all.take(0) =~= Seq::empty());
    assert(opt_views_of(out@) =~= Seq::empty());
    while i < entries.len()
        invariant
            i <= entries@.len(),
            all == opt_views_of(entries@),
            present(opt_views_of(out@)) == present(all.take(i as int)),
            forall|j: int| 0 <= j < out@.len() ==> (#[trigger] out@[j]) is Some,
            out@.len() == present(all.take(i as int)).len(),
        decreases entries@.len() - i,
    {
        proof {
            let next = all.take(i as int + 1);
            assert(next.drop_last() =~= all.take(i as int));
            assert(next.last() == opt_view(entries@[i as int]));
        }
        let ghost before = opt_views_of(out@);
        match &entries[i] {
            Some(e) => {
                out.push(Some(e.clone()));
                proof {
                    let after = opt_views_of(out@);
                    assert(after.drop_last() =~= before);
                    assert(after.last() == Some(e@));
                }
            },
            None => {},
        }
        i += 1;
    }
    assert(all.take(entries@.len() as int) =~= all);
    out
}

impl SnippetDraft {
    /// Whether the draft has content. One without is not stored.
    pub fn has_content(&self) -> (r: bool)
        ensures
            r == (text_or_empty(opt_view(self.content)).len() > 0),
    {
        match &self.content {
            Some(c) => !c.as_str().is_empty(),
            None => false,
        }
    }

    /// The snippet that a draft becomes, for the page at `source_url`;
    /// none where the draft has no content. Parts that are missing are
    /// empty, and of the concepts those are kept that are there.
    pub fn into_snippet(
        &self,
        id: u128,
        source_url: &str,
        technology_id: u128,
        version_id: u128,
        now: i64,
    ) -> (r: Option<DocumentationSnippet>)
        ensures
            r is Some <==> text_or_empty(opt_view(self.content)).len() > 0,
            match r {
                Some(s) => {
                    &&& s.id == id
                    &&& s.title@ == text_or_empty(opt_view(self.title))
                    &&& s.description@ == text_or_empty(opt_view(self.description))
                    &&& s.content@ == text_or_empty(opt_view(self.content))
                    &&& s.source_url@ == source_url@
                    &&& s.technology_id == technology_id
                    &&& s.version_id == version_id
                    &&& concept_texts(s.concepts) == concept_texts(self.concepts)
                    &&& s.created_at == now
                    &&& s.updated_at == now
                },
                None => true,
            },
    {
        if !self.has_content() {
            return None;
        }
        let concepts = match &self.concepts {
            Some(list) => Some(present_concepts(list)),
            None => None,
        };
        Some(
            DocumentationSnippet {
                id,
                title: copy_or_empty(&self.title),
                description: copy_or_empty(&self.description),
                content: copy_or_empty(&self.content),
                source_url: source_url.to_owned(),
                technology_id,
                version_id,
                concepts,
                created_at: now,
                updated_at: now,
            },
        )
    }
}

impl DocumentationSnippet {
    /// The text that an embedding is made of.
    pub fn embedding_text(&self) -> (r: String)
        ensures
            r@ == "Title: "@ + self.title@ + "\nDescription: "@ + self.description@
                + "\nContent: "@ + self.content@,
    {
        let mut text = concat3("Title: ", self.title.as_str(), "\nDescription: ");
        text.append(self.description.as_str());
        text.append("\nContent: ");
        text.append(self.content.as_str());
        text
    }
}

/// What the language model is told about the part of a text that it gets.
pub open spec fn part_note(index: nat, total: nat) -> Seq<char> {
    if total > 1 {
        "This is part "@ + decimal(index + 1) + "/"@ + decimal(total)
            + " of the documentation. Process it into comprehensive snippets."@
    } else {
        "Process this technical documentation into comprehensive snippets."@
    }
}

/// What the language model is told about the part of a text that it gets:
/// which part of how many it is, where there are several.
pub fn chunk_info(index: usize, total: usize) -> (r: String)
    ensures
        r@ == part_note(index as nat, total as nat),
{
    if total > 1 {
        let mut note = concat3("This is part ", number_text(index as u128 + 1).as_str(), "/");
        note.append(number_text(total as u128).as_str());
        note.append(" of the documentation. Process it into comprehensive snippets.");
        note
    } else {
        "Process this technical documentation into comprehensive snippets.".to_owned()
    }
}

/// The refined text, given what the model answered for each part of the
/// text: the answers that are there, one after the other.
pub open spec fn refined_text(answers: Seq<Option<Seq<char>>>) -> Seq<char>
    decreases answers.len(),
{
    if answers.len() == 0 {
        Seq::empty()
    } else {
        refined_text(answers.drop_last()) + text_or_empty(answers.last())
    }
}

/// Puts together the refined text from the answers to the parts of a
/// text. Fails where the answers hold nothing.
pub fn assemble_cleanup(answers: &[Option<String>]) -> (r: Result<String, String>)
    ensures
        match r {
            Ok(text) => text@ == refined_text(opt_views_of(answers@)) && text@.len() > 0,
            Err(e) => refined_text(opt_views_of(answers@)).len() == 0 && e@
                == "No content was generated from the API"@,
        },
{
    let mut clean = String::new();
    let ghost all = opt_views_of(answers@);
    let mut i: usize = 0;
    assert(all.take(0) =~= Seq::empty());
    while i < answers.len()
        invariant
            i <= answers@.len(),
            all == opt_views_of(answers@),
            clean@ == refined_text(all.take(i as int)),
        decreases answers@.len() - i,
    {
        proof {
            let next = all.take(i as int + 1);
            assert(next.drop_last() =~= all.take(i as int));
            assert(next.last() == opt_view(answers@[i as int]));
        }
        match &answers[i] {
            Some(a) => {
                clean.append(a.as_str());
            },
            None => {
                assert(clean@ + Seq::<char>::empty() =~= clean@);
            },
        }
        i += 1;
    }
    assert(all.take(answers@.len() as int) =~= all);
    if clean.as_str().is_empty() {
        Err("No content was generated from the API".to_owned())
    } else {
        Ok(clean)
    }
}

} // verus!
