//! The resource store: the discovered pages, at most one for each
//! technology, version and URL, and the statuses each has shown.

use vstd::prelude::*;
use crate::models::{clone_opt, DocumentationUrl, DocumentationUrlView};
use crate::status::{may_follow, parse_status, valid_path, UrlStatus, lemma_path_extends};
use crate::text::str_eq;
use crate::urls::opt_view;
use crate::ids::{now_millis, random_id};

verus! {

/// Why the store refused an operation.
#[derive(Debug, Clone, Copy, PartialEq, Eq, Structural)]
pub enum StoreError {
    /// No page has this id.
    NotFound(u128),
    /// Another page already has this id.
    DuplicateId(u128),
    /// The page may not go from the first status to the second.
    InvalidTransition(u128, UrlStatus, UrlStatus),
}

/// The index of the record with this id, if there is one.
pub open spec fn index_of_id(records: Seq<DocumentationUrlView>, id: u128) -> Option<int>
    decreases records.len(),
{
    if records.len() == 0 {
        None
    } else if records.last().id == id {
        Some(records.len() - 1)
    } else {
        index_of_id(records.drop_last(), id)
    }
}

/// The index of the record of this technology, version and URL, if there
/// is one.
pub open spec fn index_of_url(
    records: Seq<DocumentationUrlView>,
    technology_id: u128,
    version_id: u128,
    url: Seq<char>,
) -> Option<int>
    decreases records.len(),
{
    if records.len() == 0 {
        None
    } else if same_page(records.last(), technology_id, version_id, url) {
        Some(records.len() - 1)
    } else {
        index_of_url(records.drop_last(), technology_id, version_id, url)
    }
}

/// The record is the page of this technology, version and URL.
pub open spec fn same_page(
    r: DocumentationUrlView,
    technology_id: u128,
    version_id: u128,
    url: Seq<char>,
) -> bool {
    r.technology_id == technology_id && r.version_id == version_id && r.url == url
}

/// No two records share an id, and no two are the same page.
pub open spec fn distinct_pages(records: Seq<DocumentationUrlView>) -> bool {
    forall|i: int, j: int|
        0 <= i < j < records.len() ==> (#[trigger] records[i]).id != (#[trigger] records[j]).id
            && !same_page(records[i], records[j].technology_id, records[j].version_id, records[j].url)
}

/// The record of this id, if the store has one.
pub open spec fn lookup_id(records: Seq<DocumentationUrlView>, id: u128) -> Option<
    DocumentationUrlView,
> {
    match index_of_id(records, id) {
        Some(i) => Some(records[i]),
        None => None,
    }
}

/// The record of this page, if the store has one.
pub open spec fn lookup_url(
    records: Seq<DocumentationUrlView>,
    technology_id: u128,
    version_id: u128,
    url: Seq<char>,
) -> Option<DocumentationUrlView> {
    match index_of_url(records, technology_id, version_id, url) {
        Some(i) => Some(records[i]),
        None => None,
    }
}

pub proof fn lemma_index_of_id(records: Seq<DocumentationUrlView>, id: u128)
    ensures
        match index_of_id(records, id) {
            Some(i) => 0 <= i < records.len() && records[i].id == id,
            None => forall|j: int| 0 <= j < records.len() ==> (#[trigger] records[j]).id != id,
        },
    decreases records.len(),
{
    if records.len() > 0 && records.last().id != id {
        let init = records.drop_last();
        lemma_index_of_id(init, id);
        assert forall|j: int| 0 <= j < init.len() implies init[j] == records[j] by {}
        if index_of_id(init, id) is None {
            assert forall|j: int| 0 <= j < records.len() implies (#[trigger] records[j]).id
                != id by {
                if j < init.len() {
                    assert(init[j].id != id);
                }
            }
        }
    }
}

pub proof fn lemma_index_of_url(
    records: Seq<DocumentationUrlView>,
    technology_id: u128,
    version_id: u128,
    url: Seq<char>,
)
    ensures
        match index_of_url(records, technology_id, version_id, url) {
            Some(i) => 0 <= i < records.len() && same_page(
                records[i],
                technology_id,
                version_id,
                url,
            ),
            None => forall|j: int|
                0 <= j < records.len() ==> !same_page(
                    #[trigger] records[j],
                    technology_id,
                    version_id,
                    url,
                ),
        },
    decreases records.len(),
{
    if records.len() > 0 && !same_page(records.last(), technology_id, version_id, url) {
        let init = records.drop_last();
        lemma_index_of_url(init, technology_id, version_id, url);
        assert forall|j: int| 0 <= j < init.len() implies init[j] == records[j] by {}
        if index_of_url(init, technology_id, version_id, url) is None {
            assert forall|j: int| 0 <= j < records.len() implies !same_page(
                #[trigger] records[j],
                technology_id,
                version_id,
                url,
            ) by {
                if j < init.len() {
                    assert(!same_page(init[j], technology_id, version_id, url));
                }
            }
        }
    }
}

/// Among distinct pages an id is found exactly where it stands.
pub proof fn lemma_index_of_id_unique(records: Seq<DocumentationUrlView>, i: int)
    requires
        distinct_pages(records),
        0 <= i < records.len(),
    ensures
        index_of_id(records, records[i].id) == Some(i),
{
    lemma_index_of_id(records, records[i].id);
}

/// The fields of a page that an update may set. `None` leaves a field as it
/// is; for the content fields `Some(None)` clears it.
#[derive(Debug, Clone)]
pub struct FieldChange {
    pub status: Option<UrlStatus>,
    pub html: Option<Option<String>>,
    pub markdown: Option<Option<String>>,
    pub cleaned_markdown: Option<Option<String>>,
    pub is_processed: Option<bool>,
}

/// The mathematical value of a [`FieldChange`].
pub struct FieldChangeView {
    pub status: Option<UrlStatus>,
    pub html: Option<Option<Seq<char>>>,
    pub markdown: Option<Option<Seq<char>>>,
    pub cleaned_markdown: Option<Option<Seq<char>>>,
    pub is_processed: Option<bool>,
}

/// The view of a content field's update.
pub open spec fn opt_opt_view(s: Option<Option<String>>) -> Option<Option<Seq<char>>> {
    match s {
        Some(t) => Some(opt_view(t)),
        None => None,
    }
}

impl View for FieldChange {
    type V = FieldChangeView;

    open spec fn view(&self) -> FieldChangeView {
        FieldChangeView {
            status: self.status,
            html: opt_opt_view(self.html),
            markdown: opt_opt_view(self.markdown),
            cleaned_markdown: opt_opt_view(self.cleaned_markdown),
            is_processed: self.is_processed,
        }
    }
}

/// The change that sets nothing.
pub open spec fn no_change() -> FieldChangeView {
    FieldChangeView {
        status: None,
        html: None,
        markdown: None,
        cleaned_markdown: None,
        is_processed: None,
    }
}

/// The change `c`, followed by setting the field named `field` to `value`.
/// A status or a processed flag without a value, and a field of another
/// name, set nothing.
pub open spec fn with_update(c: FieldChangeView, field: Seq<char>, value: Option<Seq<char>>)
    -> FieldChangeView {
    if field == "status"@ {
        match value {
            Some(v) => FieldChangeView { status: Some(parse_status(v)), ..c },
            None => c,
        }
    } else if field == "html"@ {
        FieldChangeView { html: Some(value), ..c }
    } else if field == "markdown"@ {
        FieldChangeView { markdown: Some(value), ..c }
    } else if field == "cleaned_markdown"@ {
        FieldChangeView { cleaned_markdown: Some(value), ..c }
    } else if field == "is_processed"@ {
        match value {
            Some(v) => FieldChangeView { is_processed: Some(v == "true"@), ..c },
            None => c,
        }
    } else {
        c
    }
}

/// The view of a list of named updates.
pub open spec fn update_views(updates: Seq<(String, Option<String>)>) -> Seq<
    (Seq<char>, Option<Seq<char>>),
> {
    Seq::new(updates.len(), |i: int| (updates[i].0@, opt_view(updates[i].1)))
}

/// The change that a list of named updates amounts to, applied in order.
pub open spec fn collected(updates: Seq<(Seq<char>, Option<Seq<char>>)>) -> FieldChangeView
    decreases updates.len(),
{
    if updates.len() == 0 {
        no_change()
    } else {
        with_update(collected(updates.drop_last()), updates.last().0, updates.last().1)
    }
}

/// The page `r` after the change `c`, made at time `now`.
pub open spec fn changed(r: DocumentationUrlView, c: FieldChangeView, now: int)
    -> DocumentationUrlView {
    DocumentationUrlView {
        status: match c.status {
            Some(s) => s,
            None => r.status,
        },
        html: match c.html {
            Some(h) => h,
            None => r.html,
        },
        markdown: match c.markdown {
            Some(m) => m,
            None => r.markdown,
        },
        cleaned_markdown: match c.cleaned_markdown {
            Some(m) => m,
            None => r.cleaned_markdown,
        },
        is_processed: match c.is_processed {
            Some(b) => b,
            None => r.is_processed,
        },
        updated_at: now,
        ..r
    }
}

/// The change leaves the status of a page in state `from` alone, or moves
/// it along a transition.
pub open spec fn status_allowed(from: UrlStatus, c: FieldChangeView) -> bool {
    match c.status {
        Some(to) => to == from || may_follow(from, to),
        None => true,
    }
}

/// A page as it is first discovered.
pub open spec fn fresh_page(
    id: u128,
    technology_id: u128,
    version_id: u128,
    url: Seq<char>,
    now: int,
) -> DocumentationUrlView {
    DocumentationUrlView {
        id,
        technology_id,
        version_id,
        url,
        status: UrlStatus::PendingCrawl,
        html: None,
        markdown: None,
        cleaned_markdown: None,
        is_processed: false,
        created_at: now,
        updated_at: now,
    }
}

/// The records after a page was added under a new id: unchanged where the
/// page is already there or the id is taken.
pub open spec fn after_add(
    records: Seq<DocumentationUrlView>,
    technology_id: u128,
    version_id: u128,
    url: Seq<char>,
    id: u128,
    now: int,
) -> Seq<DocumentationUrlView> {
    if lookup_url(records, technology_id, version_id, url) is Some || lookup_id(records, id)
        is Some {
        records
    } else {
        records.push(fresh_page(id, technology_id, version_id, url, now))
    }
}

/// The records after the change `c` to the page of this id: unchanged
/// where there is no such page or the change breaks the status machine.
pub open spec fn after_change(
    records: Seq<DocumentationUrlView>,
    id: u128,
    c: FieldChangeView,
    now: int,
) -> Seq<DocumentationUrlView> {
    match index_of_id(records, id) {
        Some(i) => if status_allowed(records[i].status, c) {
            records.update(i, changed(records[i], c, now))
        } else {
            records
        },
        None => records,
    }
}

/// What a change reports: the changed page, or why nothing was changed.
pub open spec fn change_outcome(
    records: Seq<DocumentationUrlView>,
    id: u128,
    c: FieldChangeView,
    now: int,
) -> Result<DocumentationUrlView, StoreError> {
    match index_of_id(records, id) {
        Some(i) => match c.status {
            Some(to) => if to == records[i].status || may_follow(records[i].status, to) {
                Ok(changed(records[i], c, now))
            } else {
                Err(StoreError::InvalidTransition(id, records[i].status, to))
            },
            None => Ok(changed(records[i], c, now)),
        },
        None => Err(StoreError::NotFound(id)),
    }
}

/// The statuses seen of a page, after a change that took it from `from`
/// to `to`.
pub open spec fn extended(path: Seq<UrlStatus>, from: UrlStatus, to: UrlStatus) -> Seq<
    UrlStatus,
> {
    if to == from {
        path
    } else {
        path.push(to)
    }
}

/// The change that sets a page's status. A skipped page also loses its
/// content.
pub open spec fn status_change(status: UrlStatus) -> FieldChangeView {
    if status == UrlStatus::Skipped {
        FieldChangeView {
            status: Some(status),
            html: Some(None),
            markdown: Some(None),
            cleaned_markdown: Some(None),
            is_processed: None,
        }
    } else {
        FieldChangeView { status: Some(status), ..no_change() }
    }
}

/// The change that stores converted text together with a status.
pub open spec fn markdown_change(
    markdown: Option<Seq<char>>,
    cleaned_markdown: Option<Seq<char>>,
    status: UrlStatus,
) -> FieldChangeView {
    FieldChangeView {
        status: Some(status),
        html: None,
        markdown: match markdown {
            Some(m) => Some(Some(m)),
            None => None,
        },
        cleaned_markdown: match cleaned_markdown {
            Some(m) => Some(Some(m)),
            None => None,
        },
        is_processed: None,
    }
}

/// The pages of one version, in the order of the store; without their
/// content unless it is asked for.
pub open spec fn pages_of_version(
    records: Seq<DocumentationUrlView>,
    version_id: u128,
    include_content: bool,
) -> Seq<DocumentationUrlView>
    decreases records.len(),
{
    if records.len() == 0 {
        Seq::empty()
    } else {
        let init = pages_of_version(records.drop_last(), version_id, include_content);
        if records.last().version_id == version_id {
            init.push(
                if include_content {
                    records.last()
                } else {
                    records.last().without_content()
                },
            )
        } else {
            init
        }
    }
}

/// The views of a list of pages.
pub open spec fn page_views(pages: Seq<DocumentationUrl>) -> Seq<DocumentationUrlView> {
    Seq::new(pages.len(), |i: int| pages[i]@)
}

impl FieldChange {
    /// The change that sets nothing.
    pub fn none() -> (r: FieldChange)
        ensures
            r@ == no_change(),
    {
        FieldChange {
            status: None,
            html: None,
            markdown: None,
            cleaned_markdown: None,
            is_processed: None,
        }
    }

    /// This change, followed by setting the field named `field`.
    pub fn with(self, field: &str, value: &Option<String>) -> (r: FieldChange)
        ensures
            r@ == with_update(self@, field@, opt_view(*value)),
    {
        let mut c = self;
        if str_eq(field, "status") {
            match value {
                Some(v) => {
                    c.status = Some(UrlStatus::parse(v.as_str()));
                },
                None => {},
            }
        } else if str_eq(field, "html") {
            c.html = Some(clone_opt(value));
        } else if str_eq(field, "markdown") {
            c.markdown = Some(clone_opt(value));
        } else if str_eq(field, "cleaned_markdown") {
            c.cleaned_markdown = Some(clone_opt(value));
        } else if str_eq(field, "is_processed") {
            match value {
                Some(v) => {
                    c.is_processed = Some(str_eq(v.as_str(), "true"));
                },
                None => {},
            }
        }
        c
    }

    /// The change that a list of named updates amounts to.
    pub fn collect(updates: &[(String, Option<String>)]) -> (r: FieldChange)
        ensures
            r@ == collected(update_views(updates@)),
    {
        let mut c = FieldChange::none();
        let mut i: usize = 0;
        assert(update_views(updates@).take(0) =~= Seq::empty());
        while i < updates.len()
            invariant
                i <= updates.len(),
                c@ == collected(update_views(updates@).take(i as int)),
            decreases updates.len() - i,
        {
            proof {
                let next = update_views(updates@).take(i as int + 1);
                assert(next.drop_last() =~= update_views(updates@).take(i as int));
                assert(next.last() == update_views(updates@)[i as int]);
            }
            c = c.with(updates[i].0.as_str(), &updates[i].1);
            i += 1;
        }
        assert(update_views(updates@).take(updates.len() as int) =~= update_views(updates@));
        c
    }

    /// The change that sets a page's status; a skipped page also loses its
    /// content.
    pub fn to_status(status: UrlStatus) -> (r: FieldChange)
        ensures
            r@ == status_change(status),
    {
        if status == UrlStatus::Skipped {
            FieldChange {
                status: Some(status),
                html: Some(None),
                markdown: Some(None),
                cleaned_markdown: Some(None),
                is_processed: None,
            }
        } else {
            FieldChange {
                status: Some(status),
                html: None,
                markdown: None,
                cleaned_markdown: None,
                is_processed: None,
            }
        }
    }

    fn apply(&self, page: &DocumentationUrl, now: i64) -> (r: DocumentationUrl)
        ensures
            r@ == changed(page@, self@, now as int),
    {
        DocumentationUrl {
            id: page.id,
            technology_id: page.technology_id,
            version_id: page.version_id,
            url: page.url.clone(),
            status: match self.status {
                Some(s) => s,
                None => page.status,
            },
            html: match &self.html {
                Some(h) => clone_opt(h),
                None => clone_opt(&page.html),
            },
            markdown: match &self.markdown {
                Some(m) => clone_opt(m),
                None => clone_opt(&page.markdown),
            },
            cleaned_markdown: match &self.cleaned_markdown {
                Some(m) => clone_opt(m),
                None => clone_opt(&page.cleaned_markdown),
            },
            is_processed: match self.is_processed {
                Some(b) => b,
                None => page.is_processed,
            },
            created_at: page.created_at,
            updated_at: now,
        }
    }
}

/// The store of discovered pages.
pub struct DocumentationUrlService {
    records: Vec<DocumentationUrl>,
    history: Ghost<Map<u128, Seq<UrlStatus>>>,
}

impl View for DocumentationUrlService {
    type V = Seq<DocumentationUrlView>;

    closed spec fn view(&self) -> Seq<DocumentationUrlView> {
        page_views(self.records@)
    }
}

impl DocumentationUrlService {
    /// The statuses that the page of this id has shown since it was
    /// added, in order.
    pub closed spec fn observed(&self, id: u128) -> Seq<UrlStatus> {
        self.history@[id]
    }

    /// The store's invariant: no page is kept twice, and what each page
    /// has shown is a valid path that ends at its present status.
    pub open spec fn wf(&self) -> bool {
        &&& distinct_pages(self@)
        &&& forall|i: int|
            0 <= i < self@.len() ==> valid_path(self.observed((#[trigger] self@[i]).id))
                && self.observed(self@[i].id).last() == self@[i].status
    }

    /// An empty store.
    pub fn new() -> (r: DocumentationUrlService)
        ensures
            r.wf(),
            r@ == Seq::<DocumentationUrlView>::empty(),
    {
        let r = DocumentationUrlService { records: Vec::new(), history: Ghost(Map::empty()) };
        assert(r@ =~= Seq::<DocumentationUrlView>::empty());
        r
    }

    fn find_id(&self, id: u128) -> (r: Option<usize>)
        ensures
            match r {
                Some(i) => index_of_id(self@, id) == Some(i as int) && i < self.records@.len(),
                None => index_of_id(self@, id) is None,
            },
    {
        let mut i: usize = self.records.len();
        assert(self@.take(i as int) =~= self@);
        while i > 0
            invariant
                i <= self.records@.len(),
                self@.len() == self.records@.len(),
                index_of_id(self@, id) == index_of_id(self@.take(i as int), id),
            decreases i,
        {
            i -= 1;
            proof {
                let upto = self@.take(i as int + 1);
                assert(upto.last() == self.records@[i as int]@);
                assert(upto.drop_last() =~= self@.take(i as int));
            }
            if self.records[i].id == id {
                return Some(i);
            }
        }
        None
    }

    fn find_url(&self, technology_id: u128, version_id: u128, url: &str) -> (r: Option<usize>)
        ensures
            match r {
                Some(i) => index_of_url(self@, technology_id, version_id, url@) == Some(i as int)
                    && i < self.records@.len(),
                None => index_of_url(self@, technology_id, version_id, url@) is None,
            },
    {
        let mut i: usize = self.records.len();
        assert(self@.take(i as int) =~= self@);
        while i > 0
            invariant
                i <= self.records@.len(),
                self@.len() == self.records@.len(),
                index_of_url(self@, technology_id, version_id, url@) == index_of_url(
                    self@.take(i as int),
                    technology_id,
                    version_id,
                    url@,
                ),
            decreases i,
        {
            i -= 1;
            proof {
                let upto = self@.take(i as int + 1);
                assert(upto.last() == self.records@[i as int]@);
                assert(upto.drop_last() =~= self@.take(i as int));
            }
            let page = &self.records[i];
            if page.technology_id == technology_id && page.version_id == version_id && str_eq(
                page.url.as_str(),
                url,
            ) {
                return Some(i);
            }
        }
        None
    }

    /// The page of this id, if the store has it.
    pub fn get_url_by_id(&self, id: u128) -> (r: Option<DocumentationUrl>)
        ensures
            match r {
                Some(page) => lookup_id(self@, id) == Some(page@),
                None => lookup_id(self@, id) is None,
            },
    {
        match self.find_id(id) {
            Some(i) => Some(self.records[i].duplicate()),
            None => None,
        }
    }

    /// The page of this technology, version and URL, if the store has it.
    pub fn get_url_by_url(&self, technology_id: u128, version_id: u128, url: &str) -> (r: Option<
        DocumentationUrl,
    >)
        ensures
            match r {
                Some(page) => lookup_url(self@, technology_id, version_id, url@) == Some(page@),
                None => lookup_url(self@, technology_id, version_id, url@) is None,
            },
    {
        match self.find_url(technology_id, version_id, url) {
            Some(i) => Some(self.records[i].duplicate()),
            None => None,
        }
    }

    /// Adds the page under the id `id`, unless the store has it already:
    /// then the page that is there is returned and nothing changes. An id
    /// that another page has is refused.
    pub fn add_url_as(
        &mut self,
        url: &str,
        technology_id: u128,
        version_id: u128,
        id: u128,
        now: i64,
    ) -> (r: Result<DocumentationUrl, StoreError>)
        requires
            old(self).wf(),
        ensures
            final(self).wf(),
            final(self)@ == after_add(old(self)@, technology_id, version_id, url@, id, now as int),
            match lookup_url(old(self)@, technology_id, version_id, url@) {
                Some(existing) => r matches Ok(page) && page@ == existing,
                None => if lookup_id(old(self)@, id) is Some {
                    r == Err::<DocumentationUrl, StoreError>(StoreError::DuplicateId(id))
                } else {
                    r matches Ok(page) && page@ == fresh_page(
                        id,
                        technology_id,
                        version_id,
                        url@,
                        now as int,
                    )
                },
            },
            forall|k: u128|
                final(self).observed(k) == if final(self)@.len() > old(self)@.len() && k == id {
                    seq![UrlStatus::PendingCrawl]
                } else {
                    old(self).observed(k)
                },
    {
        match self.find_url(technology_id, version_id, url) {
            Some(i) => {
                return Ok(self.records[i].duplicate());
            },
            None => {},
        }
        match self.find_id(id) {
            Some(_) => {
                return Err(StoreError::DuplicateId(id));
            },
            None => {},
        }
        let page = DocumentationUrl::discovered(id, technology_id, version_id, url, now);
        let copy = page.duplicate();
        proof {
            lemma_index_of_id(old(self)@, id);
            lemma_index_of_url(old(self)@, technology_id, version_id, url@);
        }
        self.records.push(page);
        proof {
            self.history@ = self.history@.insert(id, seq![UrlStatus::PendingCrawl]);
            assert(self@ =~= old(self)@.push(copy@));
        }
        Ok(copy)
    }

    /// Applies a change to the page of this id, at time `now`, and returns
    /// the page as it then is. A change of status that the status machine
    /// does not allow is refused, and nothing changes.
    pub fn apply_change(&mut self, id: u128, change: &FieldChange, now: i64) -> (r: Result<
        DocumentationUrl,
        StoreError,
    >)
        requires
            old(self).wf(),
        ensures
            final(self).wf(),
            final(self)@ == after_change(old(self)@, id, change@, now as int),
            match r {
                Ok(page) => change_outcome(old(self)@, id, change@, now as int) == Ok::<
                    DocumentationUrlView,
                    StoreError,
                >(page@),
                Err(e) => change_outcome(old(self)@, id, change@, now as int) == Err::<
                    DocumentationUrlView,
                    StoreError,
                >(e),
            },
            forall|k: u128|
                final(self).observed(k) == if k == id && r is Ok {
                    extended(
                        old(self).observed(k),
                        lookup_id(old(self)@, id).unwrap().status,
                        r.unwrap().status,
                    )
                } else {
                    old(self).observed(k)
                },
    {
        let i = match self.find_id(id) {
            Some(i) => i,
            None => {
                return Err(StoreError::NotFound(id));
            },
        };
        let from = self.records[i].status;
        match change.status {
            Some(to) => {
                if to != from && !from.can_become(to) {
                    return Err(StoreError::InvalidTransition(id, from, to));
                }
            },
            None => {},
        }
        let page = change.apply(&self.records[i], now);
        let copy = page.duplicate();
        proof {
            lemma_index_of_id(old(self)@, id);
            assert(old(self)@[i as int] == old(self).records@[i as int]@);
        }
        self.records.set(i, page);
        proof {
            assert(self@ =~= old(self)@.update(i as int, copy@));
            if copy.status != from {
                lemma_path_extends(old(self).observed(id), copy.status);
                self.history@ = self.history@.insert(id, old(self).observed(id).push(copy.status));
            }
            assert forall|j: int| 0 <= j < self@.len() implies valid_path(
                self.observed((#[trigger] self@[j]).id),
            ) && self.observed(self@[j].id).last() == self@[j].status by {
                if j != i {
                    assert(self@[j] == old(self)@[j]);
                    assert(old(self)@[j].id != old(self)@[i as int].id);
                }
            }
        }
        Ok(copy)
    }

    /// Adds the page, unless the store has it already: then the page that
    /// is there is returned and nothing changes. A new page gets a random
    /// id and the present time; should the id be taken, the page is
    /// refused.
    pub fn add_url(&mut self, url: &str, technology_id: u128, version_id: u128) -> (r: Result<
        DocumentationUrl,
        StoreError,
    >)
        requires
            old(self).wf(),
        ensures
            final(self).wf(),
            match lookup_url(old(self)@, technology_id, version_id, url@) {
                Some(existing) => final(self)@ == old(self)@ && (r matches Ok(page) && page@
                    == existing),
                None => match r {
                    Ok(page) => final(self)@ == old(self)@.push(page@) && page@ == fresh_page(
                        page.id,
                        technology_id,
                        version_id,
                        url@,
                        page.created_at as int,
                    ),
                    Err(e) => final(self)@ == old(self)@ && (e matches StoreError::DuplicateId(id)
                        && lookup_id(old(self)@, id) is Some),
                },
            },
    {
        let id = random_id();
        let now = now_millis();
        self.add_url_as(url, technology_id, version_id, id, now)
    }

    /// Applies a list of named updates to the page of this id. With an
    /// empty list the page is returned as it is.
    pub fn update_fields(&mut self, id: u128, updates: &[(String, Option<String>)], now: i64) -> (r:
        Result<DocumentationUrl, StoreError>)
        requires
            old(self).wf(),
        ensures
            final(self).wf(),
            updates@.len() == 0 ==> final(self)@ == old(self)@ && match r {
                Ok(page) => lookup_id(old(self)@, id) == Some(page@),
                Err(e) => lookup_id(old(self)@, id) is None && e == StoreError::NotFound(id),
            },
            updates@.len() > 0 ==> final(self)@ == after_change(
                old(self)@,
                id,
                collected(update_views(updates@)),
                now as int,
            ) && match r {
                Ok(page) => change_outcome(
                    old(self)@,
                    id,
                    collected(update_views(updates@)),
                    now as int,
                ) == Ok::<DocumentationUrlView, StoreError>(page@),
                Err(e) => change_outcome(
                    old(self)@,
                    id,
                    collected(update_views(updates@)),
                    now as int,
                ) == Err::<DocumentationUrlView, StoreError>(e),
            },
    {
        if updates.len() == 0 {
            return match self.get_url_by_id(id) {
                Some(page) => Ok(page),
                None => Err(StoreError::NotFound(id)),
            };
        }
        let change = FieldChange::collect(updates);
        self.apply_change(id, &change, now)
    }

    /// Sets the status of a page. A page that becomes `Skipped` loses its
    /// content.
    pub fn update_url_status(&mut self, id: u128, status: UrlStatus, now: i64) -> (r: Result<
        DocumentationUrl,
        StoreError,
    >)
        requires
            old(self).wf(),
        ensures
            final(self).wf(),
            final(self)@ == after_change(old(self)@, id, status_change(status), now as int),
            match r {
                Ok(page) => change_outcome(old(self)@, id, status_change(status), now as int)
                    == Ok::<DocumentationUrlView, StoreError>(page@),
                Err(e) => change_outcome(old(self)@, id, status_change(status), now as int)
                    == Err::<DocumentationUrlView, StoreError>(e),
            },
            forall|k: u128|
                final(self).observed(k) == if k == id && r is Ok {
                    extended(
                        old(self).observed(k),
                        lookup_id(old(self)@, id).unwrap().status,
                        status,
                    )
                } else {
                    old(self).observed(k)
                },
    {
        let change = FieldChange::to_status(status);
        self.apply_change(id, &change, now)
    }

    /// Stores the fetched HTML of a page.
    pub fn update_url_html(&mut self, id: u128, html: &str, now: i64) -> (r: Result<
        DocumentationUrl,
        StoreError,
    >)
        requires
            old(self).wf(),
        ensures
            final(self).wf(),
            match lookup_id(old(self)@, id) {
                Some(page) => r matches Ok(p) && p@ == (DocumentationUrlView {
                    html: Some(html@),
                    updated_at: now as int,
                    ..page
                }) && final(self)@ == old(self)@.update(index_of_id(old(self)@, id).unwrap(), p@),
                None => r == Err::<DocumentationUrl, StoreError>(StoreError::NotFound(id))
                    && final(self)@ == old(self)@,
            },
            forall|k: u128| final(self).observed(k) == old(self).observed(k),
    {
        let change = FieldChange {
            status: None,
            html: Some(Some(html.to_owned())),
            markdown: None,
            cleaned_markdown: None,
            is_processed: None,
        };
        self.apply_change(id, &change, now)
    }

    /// Stores the refined text of a page.
    pub fn update_url_cleaned_markdown(&mut self, id: u128, cleaned_markdown: &str, now: i64) -> (r:
        Result<DocumentationUrl, StoreError>)
        requires
            old(self).wf(),
        ensures
            final(self).wf(),
            match lookup_id(old(self)@, id) {
                Some(page) => r matches Ok(p) && p@ == (DocumentationUrlView {
                    cleaned_markdown: Some(cleaned_markdown@),
                    updated_at: now as int,
                    ..page
                }) && final(self)@ == old(self)@.update(index_of_id(old(self)@, id).unwrap(), p@),
                None => r == Err::<DocumentationUrl, StoreError>(StoreError::NotFound(id))
                    && final(self)@ == old(self)@,
            },
            forall|k: u128| final(self).observed(k) == old(self).observed(k),
    {
        let change = FieldChange {
            status: None,
            html: None,
            markdown: None,
            cleaned_markdown: Some(Some(cleaned_markdown.to_owned())),
            is_processed: None,
        };
        self.apply_change(id, &change, now)
    }

    /// Stores converted text, refined text or both, together with a
    /// status.
    pub fn update_url_markdown(
        &mut self,
        id: u128,
        markdown: Option<String>,
        cleaned_markdown: Option<String>,
        status: UrlStatus,
        now: i64,
    ) -> (r: Result<DocumentationUrl, StoreError>)
        requires
            old(self).wf(),
        ensures
            final(self).wf(),
            final(self)@ == after_change(
                old(self)@,
                id,
                markdown_change(opt_view(markdown), opt_view(cleaned_markdown), status),
                now as int,
            ),
            match r {
                Ok(page) => change_outcome(
                    old(self)@,
                    id,
                    markdown_change(opt_view(markdown), opt_view(cleaned_markdown), status),
                    now as int,
                ) == Ok::<DocumentationUrlView, StoreError>(page@),
                Err(e) => change_outcome(
                    old(self)@,
                    id,
                    markdown_change(opt_view(markdown), opt_view(cleaned_markdown), status),
                    now as int,
                ) == Err::<DocumentationUrlView, StoreError>(e),
            },
            forall|k: u128|
                final(self).observed(k) == if k == id && r is Ok {
                    extended(
                        old(self).observed(k),
                        lookup_id(old(self)@, id).unwrap().status,
                        status,
                    )
                } else {
                    old(self).observed(k)
                },
    {
        let change = FieldChange {
            status: Some(status),
            html: None,
            markdown: match markdown {
                Some(m) => Some(Some(m)),
                None => None,
            },
            cleaned_markdown: match cleaned_markdown {
                Some(m) => Some(Some(m)),
                None => None,
            },
            is_processed: None,
        };
        self.apply_change(id, &change, now)
    }

    /// The pages of one version, in the order in which they were added;
    /// without their content unless it is asked for.
    pub fn get_urls_for_version(&self, version_id: u128, include_content: bool) -> (r: Vec<
        DocumentationUrl,
    >)
        ensures
            page_views(r@) == pages_of_version(self@, version_id, include_content),
    {
        let mut out: Vec<DocumentationUrl> = Vec::new();
        let mut i: usize = 0;
        assert(self@.take(0) =~= Seq::empty());
        assert(page_views(out@) =~= Seq::empty());
        while i < self.records.len()
            invariant
                i <= self.records@.len(),
                self@.len() == self.records@.len(),
                page_views(out@) == pages_of_version(
                    self@.take(i as int),
                    version_id,
                    include_content,
                ),
            decreases self.records@.len() - i,
        {
            proof {
                let next = self@.take(i as int + 1);
                assert(next.drop_last() =~= self@.take(i as int));
                assert(next.last() == self.records@[i as int]@);
            }
            let ghost before = page_views(out@);
            if self.records[i].version_id == version_id {
                let page = if include_content {
                    self.records[i].duplicate()
                } else {
                    self.records[i].summary()
                };
                out.push(page);
                assert(page_views(out@) =~= before.push(page@));
            }
            i += 1;
        }
        assert(self@.take(self.records@.len() as int) =~= self@);
        out
    }

    /// Removes the page of this id.
    pub fn delete_url(&mut self, id: u128) -> (r: Result<(), StoreError>)
        requires
            old(self).wf(),
        ensures
            final(self).wf(),
            match index_of_id(old(self)@, id) {
                Some(i) => r is Ok && final(self)@ == old(self)@.remove(i),
                None => r == Err::<(), StoreError>(StoreError::NotFound(id)) && final(self)@
                    == old(self)@,
            },
            forall|k: u128| final(self).observed(k) == old(self).observed(k),
    {
        match self.find_id(id) {
            Some(i) => {
                proof {
                    lemma_index_of_id(old(self)@, id);
                }
                self.records.remove(i);
                proof {
                    assert(self@ =~= old(self)@.remove(i as int));
                    assert forall|a: int, b: int| 0 <= a < b < self@.len() implies (
                    #[trigger] self@[a]).id != (#[trigger] self@[b]).id && !same_page(
                        self@[a],
                        self@[b].technology_id,
                        self@[b].version_id,
                        self@[b].url,
                    ) by {
                        let a0 = if a < i { a } else { a + 1 };
                        let b0 = if b < i { b } else { b + 1 };
                        assert(self@[a] == old(self)@[a0]);
                        assert(self@[b] == old(self)@[b0]);
                    }
                    assert forall|j: int| 0 <= j < self@.len() implies valid_path(
                        self.observed((#[trigger] self@[j]).id),
                    ) && self.observed(self@[j].id).last() == self@[j].status by {
                        let j0 = if j < i { j } else { j + 1 };
                        assert(self@[j] == old(self)@[j0]);
                    }
                }
                Ok(())
            },
            None => Err(StoreError::NotFound(id)),
        }
    }

    /// The technology and the version that the page of this id belongs
    /// to.
    pub fn get_tech_and_version_for_url(&self, url_id: u128) -> (r: Result<
        (u128, u128),
        StoreError,
    >)
        ensures
            match lookup_id(self@, url_id) {
                Some(page) => r == Ok::<(u128, u128), StoreError>(
                    (page.technology_id, page.version_id),
                ),
                None => r == Err::<(u128, u128), StoreError>(StoreError::NotFound(url_id)),
            },
    {
        match self.find_id(url_id) {
            Some(i) => Ok((self.records[i].technology_id, self.records[i].version_id)),
            None => Err(StoreError::NotFound(url_id)),
        }
    }
}


/// Adding a page leaves the pages distinct, and adding the same page once
/// more, under whatever id and at whatever time, changes nothing: the
/// store never holds two records of one technology, version and URL.
pub proof fn lemma_add_is_idempotent(
    records: Seq<DocumentationUrlView>,
    technology_id: u128,
    version_id: u128,
    url: Seq<char>,
    id: u128,
    now: int,
    id_again: u128,
    now_again: int,
)
    requires
        distinct_pages(records),
        lookup_id(records, id) is None,
    ensures
        ({
            let once = after_add(records, technology_id, version_id, url, id, now);
            &&& distinct_pages(once)
            &&& lookup_url(once, technology_id, version_id, url) is Some
            &&& after_add(once, technology_id, version_id, url, id_again, now_again) == once
        }),
{
    let once = after_add(records, technology_id, version_id, url, id, now);
    lemma_index_of_id(records, id);
    lemma_index_of_url(records, technology_id, version_id, url);
    lemma_index_of_url(once, technology_id, version_id, url);
    if once != records {
        assert(same_page(once[once.len() - 1], technology_id, version_id, url));
    }
}

/// In a store of distinct pages, at most one record is the page of a given
/// technology, version and URL.
pub proof fn lemma_one_record_per_page(
    records: Seq<DocumentationUrlView>,
    technology_id: u128,
    version_id: u128,
    url: Seq<char>,
    i: int,
    j: int,
)
    requires
        distinct_pages(records),
        0 <= i < records.len(),
        0 <= j < records.len(),
        same_page(records[i], technology_id, version_id, url),
        same_page(records[j], technology_id, version_id, url),
    ensures
        i == j,
{
}

/// What the store has seen of any of its pages is a valid path through
/// the status machine, ending at the page's present status.
pub proof fn lemma_observed_path_is_valid(store: &DocumentationUrlService, i: int)
    requires
        store.wf(),
        0 <= i < store@.len(),
    ensures
        valid_path(store.observed(store@[i].id)),
        store.observed(store@[i].id).last() == store@[i].status,
{
}


/// A page is found at the same place in two lists that hold the same ids
/// in the same order.
pub proof fn lemma_index_by_ids(
    a: Seq<DocumentationUrlView>,
    b: Seq<DocumentationUrlView>,
    id: u128,
)
    requires
        a.len() == b.len(),
        forall|i: int| 0 <= i < a.len() ==> (#[trigger] a[i]).id == b[i].id,
    ensures
        index_of_id(a, id) == index_of_id(b, id),
    decreases a.len(),
{
    if a.len() > 0 {
        assert(a[a.len() - 1].id == b[a.len() - 1].id);
        let a0 = a.drop_last();
        let b0 = b.drop_last();
        assert forall|i: int| 0 <= i < a0.len() implies (#[trigger] a0[i]).id == b0[i].id by {
            assert(a[i].id == b[i].id);
        }
        lemma_index_by_ids(a0, b0, id);
    }
}

/// After a change that the status machine allows, the page is found as
/// changed, and every other page as it was.
pub proof fn lemma_change_is_seen(
    records: Seq<DocumentationUrlView>,
    id: u128,
    c: FieldChangeView,
    now: int,
    other: u128,
)
    requires
        lookup_id(records, id) matches Some(page) && status_allowed(page.status, c),
    ensures
        lookup_id(after_change(records, id, c, now), id) == Some(
            changed(lookup_id(records, id).unwrap(), c, now),
        ),
        change_outcome(records, id, c, now) == Ok::<DocumentationUrlView, StoreError>(
            changed(lookup_id(records, id).unwrap(), c, now),
        ),
        other != id ==> lookup_id(after_change(records, id, c, now), other) == lookup_id(
            records,
            other,
        ),
        after_change(records, id, c, now).len() == records.len(),
{
    let after = after_change(records, id, c, now);
    lemma_index_of_id(records, id);
    let i = index_of_id(records, id).unwrap();
    assert forall|k: int| 0 <= k < records.len() implies (#[trigger] records[k]).id
        == after[k].id by {}
    lemma_index_by_ids(records, after, id);
    lemma_index_by_ids(records, after, other);
    lemma_index_of_id(records, other);
}

} // verus!
