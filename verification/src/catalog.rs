//! The catalog: the technologies whose documentation is kept, their
//! versions, and the crawl settings of each version.

use vstd::prelude::*;
use crate::models::{clone_opt, CrawlingSettings, Technology, TechnologyVersion};
use crate::text::str_eq;

verus! {

/// Why the catalog refused an operation.
#[derive(Debug, Clone, Copy, PartialEq, Eq, Structural)]
pub enum CatalogError {
    /// No technology has this id.
    TechnologyMissing(u128),
    /// No version has this id.
    VersionMissing(u128),
    /// Another technology has the name.
    TechnologyNameTaken,
    /// The technology has another version of the name.
    VersionNameTaken,
}

/// The index of the first element from `from` on that has the property.
pub open spec fn first_where<T>(s: Seq<T>, p: spec_fn(T) -> bool, from: int) -> Option<int>
    decreases s.len() - from,
{
    if from < 0 || from >= s.len() {
        None
    } else if p(s[from]) {
        Some(from)
    } else {
        first_where(s, p, from + 1)
    }
}

/// What `first_where` finds has the property and is the first that has.
pub proof fn lemma_first_where<T>(s: Seq<T>, p: spec_fn(T) -> bool, from: int)
    requires
        0 <= from,
    ensures
        match first_where(s, p, from) {
            Some(i) => from <= i < s.len() && p(s[i]) && forall|j: int|
                from <= j < i ==> !p(#[trigger] s[j]),
            None => forall|j: int| from <= j < s.len() ==> !p(#[trigger] s[j]),
        },
    decreases s.len() - from,
{
    if from < s.len() && !p(s[from]) {
        lemma_first_where(s, p, from + 1);
    }
}

/// The technology has this id.
pub open spec fn technology_is(id: u128) -> spec_fn(Technology) -> bool {
    |t: Technology| t.id == id
}

/// The technology has this name.
pub open spec fn technology_called(name: Seq<char>) -> spec_fn(Technology) -> bool {
    |t: Technology| t.name@ == name
}

/// The version has this id.
pub open spec fn version_is(id: u128) -> spec_fn(TechnologyVersion) -> bool {
    |v: TechnologyVersion| v.id == id
}

/// The version belongs to this technology and has this name.
pub open spec fn version_called(technology_id: u128, name: Seq<char>) -> spec_fn(
    TechnologyVersion,
) -> bool {
    |v: TechnologyVersion| v.technology_id == technology_id && v.version@ == name
}

/// The settings are those of this version.
pub open spec fn settings_of(version_id: u128) -> spec_fn(CrawlingSettings) -> bool {
    |s: CrawlingSettings| s.version_id == version_id
}

/// The ids of the technologies of a language, in order.
pub open spec fn ids_of_language(technologies: Seq<Technology>, language: Seq<char>) -> Seq<u128>
    decreases technologies.len(),
{
    if technologies.len() == 0 {
        Seq::empty()
    } else {
        let init = ids_of_language(technologies.drop_last(), language);
        match technologies.last().language {
            Some(l) => if l@ == language {
                init.push(technologies.last().id)
            } else {
                init
            },
            None => init,
        }
    }
}

/// The technologies.
pub struct TechnologyService {
    technologies: Vec<Technology>,
}

impl View for TechnologyService {
    type V = Seq<Technology>;

    closed spec fn view(&self) -> Seq<Technology> {
        self.technologies@
    }
}

impl Default for TechnologyService {
    /// No technologies, as [`TechnologyService::new`] gives.
    fn default() -> (r: TechnologyService)
        ensures
            r@ == Seq::<Technology>::empty(),
    {
        TechnologyService::new()
    }
}

impl TechnologyService {
    /// No technologies.
    pub fn new() -> (r: TechnologyService)
        ensures
            r@ == Seq::<Technology>::empty(),
    {
        TechnologyService { technologies: Vec::new() }
    }

    fn index_of(&self, id: u128) -> (r: Option<usize>)
        ensures
            match r {
                Some(i) => first_where(self@, technology_is(id), 0) == Some(i as int) && i
                    < self@.len(),
                None => first_where(self@, technology_is(id), 0) is None,
            },
    {
        let mut i: usize = 0;
        while i < self.technologies.len()
            invariant
                i <= self@.len(),
                first_where(self@, technology_is(id), 0) == first_where(
                    self@,
                    technology_is(id),
                    i as int,
                ),
            decreases self@.len() - i,
        {
            if self.technologies[i].id == id {
                return Some(i);
            }
            i += 1;
        }
        None
    }

    fn index_of_name(&self, name: &str) -> (r: Option<usize>)
        ensures
            match r {
                Some(i) => first_where(self@, technology_called(name@), 0) == Some(i as int) && i
                    < self@.len(),
                None => first_where(self@, technology_called(name@), 0) is None,
            },
    {
        let mut i: usize = 0;
        while i < self.technologies.len()
            invariant
                i <= self@.len(),
                first_where(self@, technology_called(name@), 0) == first_where(
                    self@,
                    technology_called(name@),
                    i as int,
                ),
            decreases self@.len() - i,
        {
            if str_eq(self.technologies[i].name.as_str(), name) {
                return Some(i);
            }
            i += 1;
        }
        None
    }

    /// All technologies, in the order in which they were added.
    pub fn get_technologies(&self) -> (r: &Vec<Technology>)
        ensures
            r@ == self@,
    {
        &self.technologies
    }

    /// The technology of this id.
    pub fn get_technology(&self, id: u128) -> (r: Option<&Technology>)
        ensures
            match r {
                Some(t) => first_where(self@, technology_is(id), 0) matches Some(i) && *t
                    == self@[i],
                None => first_where(self@, technology_is(id), 0) is None,
            },
    {
        match self.index_of(id) {
            Some(i) => Some(&self.technologies[i]),
            None => None,
        }
    }

    /// Whether there is a technology of this id.
    pub fn has_technology(&self, id: u128) -> (r: bool)
        ensures
            r == (first_where(self@, technology_is(id), 0) is Some),
    {
        self.index_of(id).is_some()
    }

    /// The technology of this name.
    pub fn find_technology_by_name(&self, name: &str) -> (r: Option<&Technology>)
        ensures
            match r {
                Some(t) => first_where(self@, technology_called(name@), 0) matches Some(i) && *t
                    == self@[i],
                None => first_where(self@, technology_called(name@), 0) is None,
            },
    {
        match self.index_of_name(name) {
            Some(i) => Some(&self.technologies[i]),
            None => None,
        }
    }

    /// The ids of the technologies of a language, in the order in which
    /// they were added.
    pub fn get_technologies_by_language(&self, language: &str) -> (r: Vec<u128>)
        ensures
            r@ == ids_of_language(self@, language@),
    {
        let mut out: Vec<u128> = Vec::new();
        let mut i: usize = 0;
        assert(self@.take(0) =~= Seq::empty());
        while i < self.technologies.len()
            invariant
                i <= self@.len(),
                out@ == ids_of_language(self@.take(i as int), language@),
            decreases self@.len() - i,
        {
            proof {
                let next = self@.take(i as int + 1);
                assert(next.drop_last() =~= self@.take(i as int));
                assert(next.last() == self@[i as int]);
            }
            let matches = match &self.technologies[i].language {
                Some(l) => str_eq(l.as_str(), language),
                None => false,
            };
            if matches {
                out.push(self.technologies[i].id);
            }
            i += 1;
        }
        assert(self@.take(self@.len() as int) =~= self@);
        out
    }

    /// Adds a technology, unless another has its name. Returns its id.
    pub fn create_technology(&mut self, technology: Technology) -> (r: Result<u128, CatalogError>)
        ensures
            match first_where(old(self)@, technology_called(technology.name@), 0) {
                Some(_) => r == Err::<u128, CatalogError>(CatalogError::TechnologyNameTaken)
                    && final(self)@ == old(self)@,
                None => r == Ok::<u128, CatalogError>(technology.id) && final(self)@ == old(self)@.push(technology),
            },
    {
        if self.index_of_name(technology.name.as_str()).is_some() {
            return Err(CatalogError::TechnologyNameTaken);
        }
        let id = technology.id;
        self.technologies.push(technology);
        Ok(id)
    }

    /// Replaces the technology of this id by `technology`, which keeps the
    /// id. Fails where there is no such technology, or where the name
    /// changes to one that another technology has.
    pub fn update_technology(&mut self, id: u128, technology: Technology) -> (r: Result<
        (),
        CatalogError,
    >)
        ensures
            match first_where(old(self)@, technology_is(id), 0) {
                None => r == Err::<(), CatalogError>(CatalogError::TechnologyMissing(id))
                    && final(self)@ == old(self)@,
                Some(i) => if technology.name@ != old(self)@[i].name@ && first_where(
                    old(self)@,
                    technology_called(technology.name@),
                    0,
                ) is Some {
                    r == Err::<(), CatalogError>(CatalogError::TechnologyNameTaken) && final(self)@ == old(self)@
                } else {
                    r is Ok && final(self)@ == old(self)@.update(
                        i,
                        Technology { id, ..technology },
                    )
                },
            },
    {
        let i = match self.index_of(id) {
            Some(i) => i,
            None => {
                return Err(CatalogError::TechnologyMissing(id));
            },
        };
        if !str_eq(technology.name.as_str(), self.technologies[i].name.as_str())
            && self.index_of_name(technology.name.as_str()).is_some() {
            return Err(CatalogError::TechnologyNameTaken);
        }
        let mut replaced = technology;
        replaced.id = id;
        self.technologies.set(i, replaced);
        Ok(())
    }

    /// Removes the technology of this id. Returns whether there was one.
    pub fn delete_technology(&mut self, id: u128) -> (r: bool)
        ensures
            match first_where(old(self)@, technology_is(id), 0) {
                Some(i) => r && final(self)@ == old(self)@.remove(i),
                None => !r && final(self)@ == old(self)@,
            },
    {
        match self.index_of(id) {
            Some(i) => {
                proof {
                    lemma_first_where(self@, technology_is(id), 0);
                }
                self.technologies.remove(i);
                true
            },
            None => false,
        }
    }

    /// The id of the technology of this name; where there is none, one is
    /// added under the id `id`, made at `now`.
    pub fn get_or_create_technology(
        &mut self,
        name: &str,
        language: Option<&str>,
        id: u128,
        now: i64,
    ) -> (r: u128)
        ensures
            match first_where(old(self)@, technology_called(name@), 0) {
                Some(i) => r == old(self)@[i].id && final(self)@ == old(self)@,
                None => r == id && final(self)@.len() == old(self)@.len() + 1 && final(self)@.drop_last() == old(self)@ && ({
                    let t = final(self)@.last();
                    &&& t.id == id
                    &&& t.name@ == name@
                    &&& match language {
                        Some(l) => t.language matches Some(tl) && tl@ == l@,
                        None => t.language is None,
                    }
                    &&& t.related is None
                    &&& t.created_at == now
                    &&& t.updated_at == now
                }),
            },
    {
        match self.index_of_name(name) {
            Some(i) => self.technologies[i].id,
            None => {
                let technology = Technology {
                    id,
                    name: name.to_owned(),
                    language: match language {
                        Some(l) => Some(l.to_owned()),
                        None => None,
                    },
                    related: None,
                    created_at: now,
                    updated_at: now,
                };
                self.technologies.push(technology);
                assert(self@.drop_last() =~= old(self)@);
                id
            },
        }
    }
}

/// A copy of a version.
pub fn copy_version(v: &TechnologyVersion) -> (r: TechnologyVersion)
    ensures
        r == *v,
{
    TechnologyVersion {
        id: v.id,
        technology_id: v.technology_id,
        version: v.version.clone(),
        created_at: v.created_at,
        updated_at: v.updated_at,
    }
}

/// The versions of a technology, in order.
pub open spec fn versions_of(versions: Seq<TechnologyVersion>, technology_id: u128) -> Seq<
    TechnologyVersion,
>
    decreases versions.len(),
{
    if versions.len() == 0 {
        Seq::empty()
    } else if versions.last().technology_id == technology_id {
        versions_of(versions.drop_last(), technology_id).push(versions.last())
    } else {
        versions_of(versions.drop_last(), technology_id)
    }
}

/// The versions.
pub struct VersionService {
    versions: Vec<TechnologyVersion>,
}

impl View for VersionService {
    type V = Seq<TechnologyVersion>;

    closed spec fn view(&self) -> Seq<TechnologyVersion> {
        self.versions@
    }
}

impl VersionService {
    /// No versions.
    pub fn new() -> (r: VersionService)
        ensures
            r@ == Seq::<TechnologyVersion>::empty(),
    {
        VersionService { versions: Vec::new() }
    }

    fn index_of(&self, id: u128) -> (r: Option<usize>)
        ensures
            match r {
                Some(i) => first_where(self@, version_is(id), 0) == Some(i as int) && i
                    < self@.len(),
                None => first_where(self@, version_is(id), 0) is None,
            },
    {
        let mut i: usize = 0;
        while i < self.versions.len()
            invariant
                i <= self@.len(),
                first_where(self@, version_is(id), 0) == first_where(
                    self@,
                    version_is(id),
                    i as int,
                ),
            decreases self@.len() - i,
        {
            if self.versions[i].id == id {
                return Some(i);
            }
            i += 1;
        }
        None
    }

    fn index_of_name(&self, technology_id: u128, name: &str) -> (r: Option<usize>)
        ensures
            match r {
                Some(i) => first_where(self@, version_called(technology_id, name@), 0) == Some(
                    i as int,
                ) && i < self@.len(),
                None => first_where(self@, version_called(technology_id, name@), 0) is None,
            },
    {
        let mut i: usize = 0;
        while i < self.versions.len()
            invariant
                i <= self@.len(),
                first_where(self@, version_called(technology_id, name@), 0) == first_where(
                    self@,
                    version_called(technology_id, name@),
                    i as int,
                ),
            decreases self@.len() - i,
        {
            if self.versions[i].technology_id == technology_id && str_eq(
                self.versions[i].version.as_str(),
                name,
            ) {
                return Some(i);
            }
            i += 1;
        }
        None
    }

    /// All versions, in the order in which they were added.
    pub fn get_versions(&self) -> (r: &Vec<TechnologyVersion>)
        ensures
            r@ == self@,
    {
        &self.versions
    }

    /// The version of this id.
    pub fn get_version(&self, id: u128) -> (r: Option<TechnologyVersion>)
        ensures
            match r {
                Some(v) => first_where(self@, version_is(id), 0) matches Some(i) && v == self@[i],
                None => first_where(self@, version_is(id), 0) is None,
            },
    {
        match self.index_of(id) {
            Some(i) => Some(copy_version(&self.versions[i])),
            None => None,
        }
    }

    /// The version of a technology that has this name.
    pub fn find_by_version(&self, technology_id: u128, name: &str) -> (r: Option<
        TechnologyVersion,
    >)
        ensures
            match r {
                Some(v) => first_where(self@, version_called(technology_id, name@), 0) matches Some(
                    i,
                ) && v == self@[i],
                None => first_where(self@, version_called(technology_id, name@), 0) is None,
            },
    {
        match self.index_of_name(technology_id, name) {
            Some(i) => Some(copy_version(&self.versions[i])),
            None => None,
        }
    }

    /// The versions of a technology, in the order in which they were
    /// added. Fails where there is no such technology.
    pub fn get_versions_for_technology(&self, technologies: &TechnologyService, technology_id: u128)
        -> (r: Result<Vec<TechnologyVersion>, CatalogError>)
        ensures
            match r {
                Ok(list) => first_where(technologies@, technology_is(technology_id), 0) is Some
                    && list@ == versions_of(self@, technology_id),
                Err(e) => first_where(technologies@, technology_is(technology_id), 0) is None && e
                    == CatalogError::TechnologyMissing(technology_id),
            },
    {
        if !technologies.has_technology(technology_id) {
            return Err(CatalogError::TechnologyMissing(technology_id));
        }
        let mut out: Vec<TechnologyVersion> = Vec::new();
        let mut i: usize = 0;
        assert(self@.take(0) =~= Seq::empty());
        while i < self.versions.len()
            invariant
                i <= self@.len(),
                out@ == versions_of(self@.take(i as int), technology_id),
            decreases self@.len() - i,
        {
            proof {
                let next = self@.take(i as int + 1);
                assert(next.drop_last() =~= self@.take(i as int));
                assert(next.last() == self@[i as int]);
            }
            if self.versions[i].technology_id == technology_id {
                out.push(copy_version(&self.versions[i]));
            }
            i += 1;
        }
        assert(self@.take(self@.len() as int) =~= self@);
        Ok(out)
    }

    /// Adds a version. Fails where its technology is missing, or has a
    /// version of the same name.
    pub fn create_version(&mut self, technologies: &TechnologyService, version: TechnologyVersion)
        -> (r: Result<TechnologyVersion, CatalogError>)
        ensures
            if first_where(technologies@, technology_is(version.technology_id), 0) is None {
                r == Err::<TechnologyVersion, CatalogError>(
                    CatalogError::TechnologyMissing(version.technology_id),
                ) && final(self)@ == old(self)@
            } else if first_where(
                old(self)@,
                version_called(version.technology_id, version.version@),
                0,
            ) is Some {
                r == Err::<TechnologyVersion, CatalogError>(CatalogError::VersionNameTaken)
                    && final(self)@ == old(self)@
            } else {
                r == Ok::<TechnologyVersion, CatalogError>(version) && final(self)@ == old(self)@.push(version)
            },
    {
        if !technologies.has_technology(version.technology_id) {
            return Err(CatalogError::TechnologyMissing(version.technology_id));
        }
        if self.index_of_name(version.technology_id, version.version.as_str()).is_some() {
            return Err(CatalogError::VersionNameTaken);
        }
        let copy = copy_version(&version);
        self.versions.push(version);
        Ok(copy)
    }

    /// Replaces the version of this id by `version`, which keeps the id.
    /// Fails where there is no such version, or where the name changes to
    /// one that the technology has another version of.
    pub fn update_version(&mut self, id: u128, version: TechnologyVersion) -> (r: Result<
        TechnologyVersion,
        CatalogError,
    >)
        ensures
            match first_where(old(self)@, version_is(id), 0) {
                None => r == Err::<TechnologyVersion, CatalogError>(
                    CatalogError::VersionMissing(id),
                ) && final(self)@ == old(self)@,
                Some(i) => if version.version@ != old(self)@[i].version@ && first_where(
                    old(self)@,
                    version_called(version.technology_id, version.version@),
                    0,
                ) is Some {
                    r == Err::<TechnologyVersion, CatalogError>(CatalogError::VersionNameTaken)
                        && final(self)@ == old(self)@
                } else {
                    r == Ok::<TechnologyVersion, CatalogError>(
                        TechnologyVersion { id, ..version },
                    ) && final(self)@ == old(self)@.update(i, TechnologyVersion { id, ..version })
                },
            },
    {
        let i = match self.index_of(id) {
            Some(i) => i,
            None => {
                return Err(CatalogError::VersionMissing(id));
            },
        };
        if !str_eq(version.version.as_str(), self.versions[i].version.as_str())
            && self.index_of_name(version.technology_id, version.version.as_str()).is_some() {
            return Err(CatalogError::VersionNameTaken);
        }
        let mut replaced = version;
        replaced.id = id;
        let copy = copy_version(&replaced);
        self.versions.set(i, replaced);
        Ok(copy)
    }

    /// Removes the version of this id. Returns whether there was one.
    pub fn delete_version(&mut self, id: u128) -> (r: bool)
        ensures
            match first_where(old(self)@, version_is(id), 0) {
                Some(i) => r && final(self)@ == old(self)@.remove(i),
                None => !r && final(self)@ == old(self)@,
            },
    {
        match self.index_of(id) {
            Some(i) => {
                proof {
                    lemma_first_where(self@, version_is(id), 0);
                }
                self.versions.remove(i);
                true
            },
            None => false,
        }
    }

    /// The version of a technology that has this name; where there is
    /// none, one is added under the id `id`, made at `now`. Fails where
    /// the version would have to be added and the technology is missing.
    pub fn get_or_create_version(
        &mut self,
        technologies: &TechnologyService,
        technology_id: u128,
        name: &str,
        id: u128,
        now: i64,
    ) -> (r: Result<TechnologyVersion, CatalogError>)
        ensures
            match first_where(old(self)@, version_called(technology_id, name@), 0) {
                Some(i) => r == Ok::<TechnologyVersion, CatalogError>(old(self)@[i]) && final(self)@ == old(self)@,
                None => if first_where(technologies@, technology_is(technology_id), 0) is None {
                    r == Err::<TechnologyVersion, CatalogError>(
                        CatalogError::TechnologyMissing(technology_id),
                    ) && final(self)@ == old(self)@
                } else {
                    r matches Ok(v) && v.id == id && v.technology_id == technology_id && v.version@
                        == name@ && v.created_at == now && v.updated_at == now && final(self)@
                        == old(self)@.push(v)
                },
            },
    {
        match self.index_of_name(technology_id, name) {
            Some(i) => {
                return Ok(copy_version(&self.versions[i]));
            },
            None => {},
        }
        if !technologies.has_technology(technology_id) {
            return Err(CatalogError::TechnologyMissing(technology_id));
        }
        let version = TechnologyVersion {
            id,
            technology_id,
            version: name.to_owned(),
            created_at: now,
            updated_at: now,
        };
        let copy = copy_version(&version);
        self.versions.push(version);
        Ok(copy)
    }
}

/// A copy of settings.
pub fn copy_settings(s: &CrawlingSettings) -> (r: CrawlingSettings)
    ensures
        r == *s,
{
    CrawlingSettings {
        id: s.id,
        version_id: s.version_id,
        prefix_path: clone_opt(&s.prefix_path),
        anti_paths: clone_opt(&s.anti_paths),
        anti_keywords: clone_opt(&s.anti_keywords),
        created_at: s.created_at,
        updated_at: s.updated_at,
    }
}

/// The crawl settings of the versions.
pub struct CrawlingSettingsRepository {
    settings: Vec<CrawlingSettings>,
}

impl View for CrawlingSettingsRepository {
    type V = Seq<CrawlingSettings>;

    closed spec fn view(&self) -> Seq<CrawlingSettings> {
        self.settings@
    }
}

impl CrawlingSettingsRepository {
    /// No settings.
    pub fn new() -> (r: CrawlingSettingsRepository)
        ensures
            r@ == Seq::<CrawlingSettings>::empty(),
    {
        CrawlingSettingsRepository { settings: Vec::new() }
    }

    fn index_of_version(&self, version_id: u128) -> (r: Option<usize>)
        ensures
            match r {
                Some(i) => first_where(self@, settings_of(version_id), 0) == Some(i as int) && i
                    < self@.len(),
                None => first_where(self@, settings_of(version_id), 0) is None,
            },
    {
        let mut i: usize = 0;
        while i < self.settings.len()
            invariant
                i <= self@.len(),
                first_where(self@, settings_of(version_id), 0) == first_where(
                    self@,
                    settings_of(version_id),
                    i as int,
                ),
            decreases self@.len() - i,
        {
            if self.settings[i].version_id == version_id {
                return Some(i);
            }
            i += 1;
        }
        None
    }

    /// The settings of a version.
    pub fn get_for_version(&self, version_id: u128) -> (r: Option<CrawlingSettings>)
        ensures
            match r {
                Some(s) => first_where(self@, settings_of(version_id), 0) matches Some(i) && s
                    == self@[i],
                None => first_where(self@, settings_of(version_id), 0) is None,
            },
    {
        match self.index_of_version(version_id) {
            Some(i) => Some(copy_settings(&self.settings[i])),
            None => None,
        }
    }

    /// Stores the settings of a version: in place of those that the
    /// version has, whose id they take over, or else as new settings
    /// under the id `fresh_id`.
    pub fn save_for_version(&mut self, settings: CrawlingSettings, fresh_id: u128) -> (r:
        CrawlingSettings)
        ensures
            match first_where(old(self)@, settings_of(settings.version_id), 0) {
                Some(i) => r == (CrawlingSettings { id: old(self)@[i].id, ..settings }) && final(self)@ == old(self)@.update(i, r),
                None => r == (CrawlingSettings { id: fresh_id, ..settings }) && final(self)@
                    == old(self)@.push(r),
            },
    {
        let mut stored = settings;
        match self.index_of_version(stored.version_id) {
            Some(i) => {
                stored.id = self.settings[i].id;
                let copy = copy_settings(&stored);
                self.settings.set(i, stored);
                copy
            },
            None => {
                stored.id = fresh_id;
                let copy = copy_settings(&stored);
                self.settings.push(stored);
                copy
            },
        }
    }

    /// The settings of a version; where it has none, empty settings are
    /// stored for it under the id `fresh_id`, made at `now`.
    pub fn get_or_create_default(&mut self, version_id: u128, fresh_id: u128, now: i64) -> (r:
        CrawlingSettings)
        ensures
            match first_where(old(self)@, settings_of(version_id), 0) {
                Some(i) => r == old(self)@[i] && final(self)@ == old(self)@,
                None => r == (CrawlingSettings {
                    id: fresh_id,
                    version_id,
                    prefix_path: None,
                    anti_paths: None,
                    anti_keywords: None,
                    created_at: now,
                    updated_at: now,
                }) && final(self)@ == old(self)@.push(r),
            },
    {
        match self.index_of_version(version_id) {
            Some(i) => copy_settings(&self.settings[i]),
            None => {
                let settings = CrawlingSettings {
                    id: fresh_id,
                    version_id,
                    prefix_path: None,
                    anti_paths: None,
                    anti_keywords: None,
                    created_at: now,
                    updated_at: now,
                };
                let copy = copy_settings(&settings);
                self.settings.push(settings);
                copy
            },
        }
    }
}

/// A language, and how often it was chosen.
#[derive(Debug, Clone)]
pub struct LanguageOption {
    pub id: u128,
    pub language: String,
    pub use_count: i32,
    pub last_used: i64,
}

/// The language option is for this language.
pub open spec fn option_for(language: Seq<char>) -> spec_fn(LanguageOption) -> bool {
    |o: LanguageOption| o.language@ == language
}

/// The languages that were chosen.
pub struct LanguageOptionRepository {
    options: Vec<LanguageOption>,
}

impl View for LanguageOptionRepository {
    type V = Seq<LanguageOption>;

    closed spec fn view(&self) -> Seq<LanguageOption> {
        self.options@
    }
}

impl LanguageOptionRepository {
    /// No languages.
    pub fn new() -> (r: LanguageOptionRepository)
        ensures
            r@ == Seq::<LanguageOption>::empty(),
    {
        LanguageOptionRepository { options: Vec::new() }
    }

    /// All languages, in the order in which they were first chosen.
    pub fn get_all(&self) -> (r: &Vec<LanguageOption>)
        ensures
            r@ == self@,
    {
        &self.options
    }

    /// Notes that a language was chosen at `now`: its count goes up by
    /// one, as far as it can be counted; a language that was never chosen
    /// is added under the id `fresh_id`, with a count of one. Returns the
    /// count.
    pub fn record_language_use(&mut self, language: &str, fresh_id: u128, now: i64) -> (r: i32)
        ensures
            match first_where(old(self)@, option_for(language@), 0) {
                Some(i) => {
                    &&& r == if old(self)@[i].use_count < i32::MAX {
                        old(self)@[i].use_count + 1
                    } else {
                        i32::MAX as int
                    }
                    &&& final(self)@ == old(self)@.update(
                        i,
                        LanguageOption { use_count: r, last_used: now, ..old(self)@[i] },
                    )
                },
                None => {
                    &&& r == 1
                    &&& final(self)@.len() == old(self)@.len() + 1
                    &&& final(self)@.drop_last() == old(self)@
                    &&& final(self)@.last().id == fresh_id
                    &&& final(self)@.last().language@ == language@
                    &&& final(self)@.last().use_count == 1
                    &&& final(self)@.last().last_used == now
                },
            },
    {
        let mut i: usize = 0;
        while i < self.options.len()
            invariant
                i <= self@.len(),
                *self == *old(self),
                first_where(self@, option_for(language@), 0) == first_where(
                    self@,
                    option_for(language@),
                    i as int,
                ),
            decreases self@.len() - i,
        {
            if str_eq(self.options[i].language.as_str(), language) {
                let count = if self.options[i].use_count < i32::MAX {
                    self.options[i].use_count + 1
                } else {
                    i32::MAX
                };
                let updated = LanguageOption {
                    id: self.options[i].id,
                    language: self.options[i].language.clone(),
                    use_count: count,
                    last_used: now,
                };
                self.options.set(i, updated);
                return count;
            }
            i += 1;
        }
        self.options.push(
            LanguageOption { id: fresh_id, language: language.to_owned(), use_count: 1, last_used: now },
        );
        assert(self@.drop_last() =~= old(self)@);
        1
    }
}

} // verus!
